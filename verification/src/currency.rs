use vstd::prelude::*;

verus! {

/// Currency codes accepted by the gateway. Each maps to a fixed number of
/// decimal places of its minor unit: two for all of them except the
/// Icelandic krona, which has no subdivision.
#[derive(Clone, Copy, PartialEq, Eq, Structural, Debug)]
pub enum Currency {
    NOK,
    SEK,
    DKK,
    ISK,
    GBP,
    EUR,
}

/// Number of decimal places of a currency's minor unit.
pub open spec fn spec_exponent(c: Currency) -> u32 {
    match c {
        Currency::NOK => 2,
        Currency::SEK => 2,
        Currency::DKK => 2,
        Currency::ISK => 0,
        Currency::GBP => 2,
        Currency::EUR => 2,
    }
}

impl Currency {
    /// How many decimal places the currency's minor unit carries.
    pub fn exponent(&self) -> (r: u32)
        ensures
            r == spec_exponent(*self),
    {
        match self {
            Currency::NOK => 2,
            Currency::SEK => 2,
            Currency::DKK => 2,
            Currency::ISK => 0,
            Currency::GBP => 2,
            Currency::EUR => 2,
        }
    }
}

} // verus!
