//! Decimal text of unsigned integers and of fixed-point decimals.
use vstd::prelude::*;
use vstd::string::*;

verus! {

/// The character of a decimal digit.
pub open spec fn digit_char(d: nat) -> char {
    if d == 0 {
        '0'
    } else if d == 1 {
        '1'
    } else if d == 2 {
        '2'
    } else if d == 3 {
        '3'
    } else if d == 4 {
        '4'
    } else if d == 5 {
        '5'
    } else if d == 6 {
        '6'
    } else if d == 7 {
        '7'
    } else if d == 8 {
        '8'
    } else {
        '9'
    }
}

/// The decimal text of `n`: no sign, no leading zeros, `"0"` for zero.
pub open spec fn digits(n: nat) -> Seq<char>
    decreases n,
{
    if n < 10 {
        seq![digit_char(n)]
    } else {
        digits(n / 10).push(digit_char(n % 10))
    }
}

/// The `k` lowest decimal digits of `n`, most significant first, padded
/// with zeros on the left.
pub open spec fn low_digits(n: nat, k: nat) -> Seq<char>
    decreases k,
{
    if k == 0 {
        Seq::empty()
    } else {
        low_digits(n / 10, (k - 1) as nat).push(digit_char(n % 10))
    }
}

/// `n` divided by ten `k` times.
pub open spec fn drop_digits(n: nat, k: nat) -> nat
    decreases k,
{
    if k == 0 {
        n
    } else {
        drop_digits(n, (k - 1) as nat) / 10
    }
}

/// A fixed-point decimal number: `units` divided by ten `places` times.
/// `Decimal { units: 3, places: 1 }` is 0.3 and renders as `0.3`.
#[derive(Clone, Copy, Debug, PartialEq, Eq, Structural)]
pub struct Decimal {
    pub units: u64,
    pub places: u8,
}

/// The text of a decimal: the integral part, then, when there are places,
/// a point and exactly `places` digits.
pub open spec fn decimal_text(d: Decimal) -> Seq<char> {
    let whole = digits(drop_digits(d.units as nat, d.places as nat));
    if d.places == 0 {
        whole
    } else {
        whole + seq!['.'] + low_digits(d.units as nat, d.places as nat)
    }
}

impl Decimal {
    /// The decimal `units` / 10^`places`.
    pub fn new(units: u64, places: u8) -> (r: Decimal)
        ensures
            r.units == units,
            r.places == places,
    {
        Decimal { units, places }
    }

    /// The text of this decimal, as `decimal_text` gives it.
    pub fn to_text(&self) -> (r: String)
        ensures
            r@ == decimal_text(*self),
    {
        let mut r = String::new();
        push_decimal(&mut r, *self);
        r
    }
}

/// The one-character text of the digit `d`.
fn digit_str(d: u128) -> (r: &'static str)
    requires
        d < 10,
    ensures
        r@ == seq![digit_char(d as nat)],
{
    proof {
        reveal_strlit("0");
        reveal_strlit("1");
        reveal_strlit("2");
        reveal_strlit("3");
        reveal_strlit("4");
        reveal_strlit("5");
        reveal_strlit("6");
        reveal_strlit("7");
        reveal_strlit("8");
        reveal_strlit("9");
    }
    if d == 0 {
        "0"
    } else if d == 1 {
        "1"
    } else if d == 2 {
        "2"
    } else if d == 3 {
        "3"
    } else if d == 4 {
        "4"
    } else if d == 5 {
        "5"
    } else if d == 6 {
        "6"
    } else if d == 7 {
        "7"
    } else if d == 8 {
        "8"
    } else {
        "9"
    }
}

/// Appends the decimal text of `n`.
pub fn push_digits(out: &mut String, n: u128)
    ensures
        final(out)@ == old(out)@ + digits(n as nat),
    decreases n,
{
    if n >= 10 {
        push_digits(out, n / 10);
    }
    out.append(digit_str(n % 10));
    assert(final(out)@ =~= old(out)@ + digits(n as nat));
}

/// Appends the `k` lowest decimal digits of `n`, padded with zeros.
fn push_low_digits(out: &mut String, n: u64, k: u8)
    ensures
        final(out)@ == old(out)@ + low_digits(n as nat, k as nat),
    decreases k,
{
    if k > 0 {
        push_low_digits(out, n / 10, k - 1);
        out.append(digit_str((n % 10) as u128));
        assert(final(out)@ =~= old(out)@ + low_digits(n as nat, k as nat));
    } else {
        assert(final(out)@ =~= old(out)@ + low_digits(n as nat, k as nat));
    }
}

/// Appends the text of the decimal `d`.
pub fn push_decimal(out: &mut String, d: Decimal)
    ensures
        final(out)@ == old(out)@ + decimal_text(d),
{
    let mut whole: u64 = d.units;
    let mut i: u8 = 0;
    while i < d.places
        invariant
            i <= d.places,
            whole == drop_digits(d.units as nat, i as nat),
        decreases d.places - i,
    {
        whole = whole / 10;
        i = i + 1;
    }
    push_digits(out, whole as u128);
    if d.places > 0 {
        out.append(".");
        push_low_digits(out, d.units, d.places);
        proof {
            reveal_strlit(".");
        }
        assert(final(out)@ =~= old(out)@ + decimal_text(d));
    }
}

} // verus!
