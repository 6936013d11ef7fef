use vstd::prelude::*;
use vstd::string::StringExecFns;

verus! {

/// The character of decimal digit `d`.
pub open spec fn digit_char(d: nat) -> char {
    seq!['0', '1', '2', '3', '4', '5', '6', '7', '8', '9'][d as int]
}

/// The decimal digits of `n`, most significant first, without sign or padding.
pub open spec fn decimal(n: nat) -> Seq<char>
    decreases n,
{
    if n < 10 {
        seq![digit_char(n)]
    } else {
        decimal(n / 10).push(digit_char(n % 10))
    }
}

/// `n < 100` written with two digits.
pub open spec fn two_digits(n: nat) -> Seq<char> {
    if n < 10 {
        seq!['0'] + decimal(n)
    } else {
        decimal(n)
    }
}

/// `nanos` in hundredths of a millisecond, rounded half up.
pub open spec fn hundredths_of_milli(nanos: u64) -> nat {
    ((nanos as nat) + 5000) / 10000
}

/// `nanos` as milliseconds with two decimals, such as `12.35ms`.
pub open spec fn millis_text_of(nanos: u64) -> Seq<char> {
    let h = hundredths_of_milli(nanos);
    decimal(h / 100) + seq!['.'] + two_digits(h % 100) + seq!['m', 's']
}

/// Relies on `ToString` of `u64` (its `Display`): the decimal digits of `n`, with
/// no sign and no padding.
#[verifier::external_body]
fn decimal_text(n: u64) -> (r: String)
    ensures
        r@ == decimal(n as nat),
{
    n.to_string()
}

/// `nanos` as milliseconds with two decimals, rounded half up.
pub fn millis_text(nanos: u64) -> (r: String)
    ensures
        r@ == millis_text_of(nanos),
{
    let up: u64 = if nanos % 10000 >= 5000 {
        1
    } else {
        0
    };
    let h: u64 = nanos / 10000 + up;
    assert(h as nat == hundredths_of_milli(nanos));
    let mut s = decimal_text(h / 100);
    s.append(".");
    let f: u64 = h % 100;
    if f < 10 {
        s.append("0");
    }
    let digits = decimal_text(f);
    s.append(digits.as_str());
    s.append("ms");
    proof {
        reveal_strlit(".");
        reveal_strlit("0");
        reveal_strlit("ms");
        assert(s@ =~= millis_text_of(nanos));
    }
    s
}

/// The decimal digits of `n`.
pub fn count_text(n: usize) -> (r: String)
    ensures
        r@ == decimal(n as nat),
{
    decimal_text(n as u64)
}

} // verus!
