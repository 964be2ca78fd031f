use vstd::prelude::*;

use crate::currency::{spec_exponent, Currency};
use crate::digits::{
    decimal_text, lemma_pow10_mono, lemma_pow10_pos, pow10, pow10_u128, spec_decimal_text,
};
use crate::errors::Error;

verus! {

/// The largest mantissa a 96-bit decimal can carry, plus one.
pub const MANTISSA_LIMIT: u128 = 0x1000000000000000000000000;

/// The largest scale (number of decimal places) a decimal can carry.
pub const SCALE_LIMIT: u32 = 28;

/// Mathematical reading of a `DecimalAmount`: the number
/// `(-1)^negative * mantissa / 10^scale`.
pub struct AmountModel {
    pub negative: bool,
    pub mantissa: nat,
    pub scale: nat,
}

/// A signed decimal number `(-1)^negative * mantissa / 10^scale`, with the
/// bounds of a 96-bit decimal: the mantissa fits in 96 bits and the scale
/// is at most 28 decimal places.
#[derive(Clone, Copy, Debug)]
pub struct DecimalAmount {
    negative: bool,
    mantissa: u128,
    scale: u32,
}

impl View for DecimalAmount {
    type V = AmountModel;

    closed spec fn view(&self) -> AmountModel {
        AmountModel {
            negative: self.negative,
            mantissa: self.mantissa as nat,
            scale: self.scale as nat,
        }
    }
}

impl DecimalAmount {
    /// The mantissa fits in 96 bits and the scale in 28 decimal places.
    #[verifier::type_invariant]
    pub closed spec fn wf(self) -> bool {
        self.mantissa < MANTISSA_LIMIT && self.scale <= SCALE_LIMIT
    }

    /// Builds the amount `(-1)^negative * mantissa / 10^scale`; refuses a
    /// mantissa or scale beyond what a 96-bit decimal can carry.
    pub fn new(negative: bool, mantissa: u128, scale: u32) -> (r: Option<DecimalAmount>)
        ensures
            r is Some <==> mantissa < MANTISSA_LIMIT && scale <= SCALE_LIMIT,
            r matches Some(a) ==> a@ == (AmountModel {
                negative,
                mantissa: mantissa as nat,
                scale: scale as nat,
            }),
    {
        if mantissa < MANTISSA_LIMIT && scale <= SCALE_LIMIT {
            Some(DecimalAmount { negative, mantissa, scale })
        } else {
            None
        }
    }
}

#[verifier::external_type_specification]
#[verifier::external_body]
pub struct ExDecimal(rust_decimal::Decimal);

/// Relies on rust_decimal::Decimal::mantissa: the signed mantissa is read
/// from the decimal's three 32-bit words, so its magnitude lies below 2^96.
pub assume_specification[ rust_decimal::Decimal::mantissa ](d: &rust_decimal::Decimal) -> (r:
    i128)
    ensures
        -(MANTISSA_LIMIT as i128) < r < MANTISSA_LIMIT as i128,
;

/// Relies on rust_decimal::Decimal::scale: the scale is an eight-bit field
/// of the flags word, so at most 255.
pub assume_specification[ rust_decimal::Decimal::scale ](d: &rust_decimal::Decimal) -> (r: u32)
    ensures
        r <= 255,
;

/// Relies on rust_decimal::Decimal::is_sign_negative: the decimal's sign
/// flag, about which nothing further is promised.
pub assume_specification[ rust_decimal::Decimal::is_sign_negative ](
    d: &rust_decimal::Decimal,
) -> bool;

impl DecimalAmount {
    /// Reads a rust_decimal value into the library's own representation,
    /// keeping its sign flag, its mantissa's magnitude and its scale.
    /// Refuses a scale beyond 28, which no well-formed decimal carries.
    pub fn from_decimal(d: &rust_decimal::Decimal) -> (r: Option<DecimalAmount>) {
        let m = d.mantissa();
        let negative = d.is_sign_negative();
        let magnitude: u128 = if m < 0 {
            (-m) as u128
        } else {
            m as u128
        };
        DecimalAmount::new(negative, magnitude, d.scale())
    }
}

/// The scaling `amount * 10^exponent` lands exactly on a non-negative
/// integer that fits in 64 bits. The sign check goes by the sign flag, as
/// the wire cast does: a negative zero is refused too.
pub open spec fn conversion_fits(a: AmountModel, c: Currency) -> bool {
    let n = a.mantissa * pow10(spec_exponent(c) as nat);
    &&& !a.negative
    &&& n % pow10(a.scale) == 0
    &&& n / pow10(a.scale) <= u64::MAX
}

/// The minor-unit value `amount * 10^exponent` when the conversion fits.
pub open spec fn spec_minor_units(a: AmountModel, c: Currency) -> nat {
    (a.mantissa * pow10(spec_exponent(c) as nat)) / pow10(a.scale)
}

/// The textual form of the scaled value `amount * 10^exponent`, kept at the
/// amount's own scale.
pub open spec fn spec_scaled_text(a: AmountModel, c: Currency) -> Seq<char> {
    spec_decimal_text(a.negative, a.mantissa * pow10(spec_exponent(c) as nat), a.scale)
}

/// Everything the conversion promises of its result: the minor-unit value
/// exactly when the scaling fits, and otherwise a conversion error carrying
/// the scaled value's textual form.
pub open spec fn convert_post(a: AmountModel, c: Currency, r: Result<u64, Error>) -> bool {
    &&& conversion_fits(a, c) ==> (r matches Ok(v) && v == spec_minor_units(a, c))
    &&& !conversion_fits(a, c) ==> (r matches Err(e) && e matches Error::ConversionError(s)
        && s@ == spec_scaled_text(a, c))
}

/// Converts a decimal amount of money in major units into the unsigned
/// 64-bit count of the currency's minor units, scaling by the currency's
/// exponent with exact decimal arithmetic. Fails, with the scaled value's
/// textual form, when the scaled value is negative, falls between two
/// integers, or exceeds the 64-bit range; nothing is ever rounded away.
pub fn convert_decimal_into_minor_units(amount: &DecimalAmount, currency: &Currency) -> (r: Result<
    u64,
    Error,
>)
    ensures
        convert_post(amount@, *currency, r),
{
    proof {
        use_type_invariant(*amount);
    }
    let e = currency.exponent();
    let mult = pow10_u128(e);
    proof {
        lemma_pow10_mono(e as nat, 2nat);
        reveal_with_fuel(pow10, 3);
        assert(pow10(2nat) == 100);
        assert(amount.mantissa * mult <= (MANTISSA_LIMIT - 1) * 100) by (nonlinear_arith)
            requires
                amount.mantissa <= MANTISSA_LIMIT - 1,
                0 <= mult <= 100,
        ;
    }
    let n: u128 = amount.mantissa * mult;
    proof {
        lemma_pow10_pos(amount.scale as nat);
    }
    let d = pow10_u128(amount.scale);
    let q = n / d;
    let rem = n % d;
    if amount.negative || rem != 0 || q > 0xffff_ffff_ffff_ffffu128 {
        Err(Error::ConversionError(decimal_text(amount.negative, n, amount.scale)))
    } else {
        Ok(q as u64)
    }
}

/// A negative decimal amount never converts: whatever the currency, the
/// conversion's contract forces a conversion error.
pub proof fn lemma_negative_never_converts(a: AmountModel, c: Currency, r: Result<u64, Error>)
    requires
        a.negative,
        convert_post(a, c, r),
    ensures
        r is Err,
        r matches Err(e) ==> e is ConversionError,
{
}

/// An amount whose scaled value exceeds the unsigned 64-bit range never
/// converts, and the conversion error's text is that scaled value's
/// textual form.
pub proof fn lemma_oversized_scaled_value_fails(a: AmountModel, c: Currency, r: Result<u64, Error>)
    requires
        (a.mantissa * pow10(spec_exponent(c) as nat)) / pow10(a.scale) > u64::MAX,
        convert_post(a, c, r),
    ensures
        r matches Err(e) && e matches Error::ConversionError(s) && s@ == spec_scaled_text(a, c),
{
}

/// Conversion is a pure function of the amount and the currency: any two
/// results its contract admits for the same inputs are the same outcome,
/// the same minor-unit value or a conversion error with the same text.
pub proof fn lemma_conversion_deterministic(
    a: AmountModel,
    c: Currency,
    r1: Result<u64, Error>,
    r2: Result<u64, Error>,
)
    requires
        convert_post(a, c, r1),
        convert_post(a, c, r2),
    ensures
        r1 is Ok <==> r2 is Ok,
        r1 matches Ok(v1) ==> r2 matches Ok(v2) ==> v1 == v2,
        r1 matches Err(e1) ==> e1 is ConversionError,
        r2 matches Err(e2) ==> e2 is ConversionError,
        r1 matches Err(Error::ConversionError(s1)) ==> r2 matches Err(Error::ConversionError(s2))
            ==> s1@ == s2@,
{
}

} // verus!
