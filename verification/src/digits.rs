use vstd::prelude::*;

verus! {

/// 10 raised to the power `n`.
pub open spec fn pow10(n: nat) -> nat
    decreases n,
{
    if n == 0 {
        1
    } else {
        10 * pow10((n - 1) as nat)
    }
}

/// Decimal digit bytes of `n`, most significant first, without leading
/// zeros (`"0"` for zero itself).
pub open spec fn spec_digits(n: nat) -> Seq<u8>
    decreases n,
{
    if n < 10 {
        seq![(48 + n) as u8]
    } else {
        spec_digits(n / 10).push((48 + n % 10) as u8)
    }
}

/// Exactly `width` decimal digit bytes of `n % 10^width`, zero padded on
/// the left.
pub open spec fn spec_fixed_digits(n: nat, width: nat) -> Seq<u8>
    decreases width,
{
    if width == 0 {
        Seq::empty()
    } else {
        spec_fixed_digits(n / 10, (width - 1) as nat).push((48 + n % 10) as u8)
    }
}

/// Every byte is an ASCII code point.
pub open spec fn ascii_only(s: Seq<u8>) -> bool {
    forall|i: int| 0 <= i < s.len() ==> s[i] < 128
}

/// The characters whose code points are the given ASCII bytes.
pub open spec fn ascii_chars(s: Seq<u8>) -> Seq<char> {
    s.map(|i: int, b: u8| b as char)
}

/// The textual form of the decimal number `(-1)^negative * units / 10^scale`,
/// written as rust_decimal writes one: an optional minus sign, the integer
/// part without leading zeros, and, when `scale` is positive, a point
/// followed by exactly `scale` fraction digits.
pub open spec fn spec_decimal_bytes(negative: bool, units: nat, scale: nat) -> Seq<u8> {
    let sign: Seq<u8> = if negative {
        seq![45u8]
    } else {
        Seq::empty()
    };
    let intpart = spec_digits(units / pow10(scale));
    if scale == 0 {
        sign + intpart
    } else {
        sign + intpart + seq![46u8] + spec_fixed_digits(units % pow10(scale), scale)
    }
}

/// `spec_decimal_bytes`, read as characters.
pub open spec fn spec_decimal_text(negative: bool, units: nat, scale: nat) -> Seq<char> {
    ascii_chars(spec_decimal_bytes(negative, units, scale))
}

pub proof fn lemma_pow10_pos(n: nat)
    ensures
        pow10(n) >= 1,
    decreases n,
{
    if n > 0 {
        lemma_pow10_pos((n - 1) as nat);
    }
}

pub proof fn lemma_pow10_mono(a: nat, b: nat)
    requires
        a <= b,
    ensures
        pow10(a) <= pow10(b),
    decreases b,
{
    if a < b {
        lemma_pow10_mono(a, (b - 1) as nat);
        lemma_pow10_pos((b - 1) as nat);
    }
}

pub proof fn lemma_pow10_28()
    ensures
        pow10(28) == 10000000000000000000000000000nat,
{
    reveal_with_fuel(pow10, 29);
}

proof fn lemma_digits_ascii(n: nat)
    ensures
        ascii_only(spec_digits(n)),
    decreases n,
{
    if n >= 10 {
        lemma_digits_ascii(n / 10);
    }
}

proof fn lemma_fixed_digits_ascii(n: nat, width: nat)
    ensures
        ascii_only(spec_fixed_digits(n, width)),
    decreases width,
{
    if width > 0 {
        lemma_fixed_digits_ascii(n / 10, (width - 1) as nat);
    }
}

/// 10^n as a machine integer, for exponents a decimal's scale can take.
pub fn pow10_u128(n: u32) -> (r: u128)
    requires
        n <= 28,
    ensures
        r == pow10(n as nat),
{
    let mut i: u32 = 0;
    let mut acc: u128 = 1;
    while i < n
        invariant
            i <= n <= 28,
            acc == pow10(i as nat),
        decreases n - i,
    {
        proof {
            lemma_pow10_mono((i + 1) as nat, 28);
            lemma_pow10_28();
        }
        acc = acc * 10;
        i = i + 1;
    }
    acc
}

/// Appends the decimal digits of `n`, most significant first.
fn push_digits(out: &mut Vec<u8>, n: u128)
    ensures
        final(out)@ == old(out)@ + spec_digits(n as nat),
    decreases n,
{
    if n < 10 {
        out.push(48 + n as u8);
        proof {
            assert(out@ =~= old(out)@ + spec_digits(n as nat));
        }
    } else {
        push_digits(out, n / 10);
        out.push(48 + (n % 10) as u8);
        proof {
            assert(out@ =~= old(out)@ + spec_digits(n as nat));
        }
    }
}

/// Appends exactly `width` decimal digits of `n % 10^width`, zero padded.
fn push_fixed_digits(out: &mut Vec<u8>, n: u128, width: u32)
    ensures
        final(out)@ == old(out)@ + spec_fixed_digits(n as nat, width as nat),
    decreases width,
{
    if width == 0 {
        proof {
            assert(out@ =~= old(out)@ + spec_fixed_digits(n as nat, 0));
        }
    } else {
        push_fixed_digits(out, n / 10, width - 1);
        out.push(48 + (n % 10) as u8);
        proof {
            assert(out@ =~= old(out)@ + spec_fixed_digits(n as nat, width as nat));
        }
    }
}

/// Relies on String::from_utf8: a buffer of ASCII bytes is valid UTF-8 and
/// decodes to the string whose characters are those bytes' code points.
#[verifier::external_body]
fn string_from_ascii(bytes: Vec<u8>) -> (r: String)
    requires
        ascii_only(bytes@),
    ensures
        r@ == ascii_chars(bytes@),
{
    String::from_utf8(bytes).unwrap()
}

/// Renders `(-1)^negative * units / 10^scale` as decimal text.
pub fn decimal_text(negative: bool, units: u128, scale: u32) -> (r: String)
    requires
        scale <= 28,
    ensures
        r@ == spec_decimal_text(negative, units as nat, scale as nat),
{
    let mut out: Vec<u8> = Vec::new();
    if negative {
        out.push(45);
    }
    proof {
        lemma_pow10_pos(scale as nat);
    }
    let d = pow10_u128(scale);
    push_digits(&mut out, units / d);
    if scale > 0 {
        out.push(46);
        push_fixed_digits(&mut out, units % d, scale);
    }
    proof {
        lemma_digits_ascii((units / d) as nat);
        lemma_fixed_digits_ascii((units % d) as nat, scale as nat);
        assert(out@ =~= spec_decimal_bytes(negative, units as nat, scale as nat));
    }
    string_from_ascii(out)
}

} // verus!
