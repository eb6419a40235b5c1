//! Color values and their object-property text.
use vstd::prelude::*;
use vstd::string::*;
use crate::number_text::{Decimal, digits, decimal_text, push_digits, push_decimal};

verus! {

/// A color, as a red-green-blue triple, such a triple with an alpha, or a
/// hex string. Neither the hex syntax nor the alpha's range is checked.
#[derive(Clone, Copy, Debug)]
pub enum Color<'a> {
    RGB(u8, u8, u8),
    RGBa(u8, u8, u8, Decimal),
    Hex(&'a str),
}

/// The text `rgb(<r>, <g>, <b>) ` (with its trailing space).
pub open spec fn rgb_text(r: u8, g: u8, b: u8) -> Seq<char> {
    "rgb("@ + digits(r as nat) + ", "@ + digits(g as nat) + ", "@ + digits(b as nat) + ") "@
}

/// The text `rgba(<r>, <g>, <b>, <a>)`, without a trailing space.
pub open spec fn rgba_text(r: u8, g: u8, b: u8, a: Decimal) -> Seq<char> {
    "rgba("@ + digits(r as nat) + ", "@ + digits(g as nat) + ", "@ + digits(b as nat) + ", "@
        + decimal_text(a) + ")"@
}

/// Appends `rgb(<r>, <g>, <b>) `.
pub fn push_rgb(out: &mut String, r: u8, g: u8, b: u8)
    ensures
        final(out)@ == old(out)@ + rgb_text(r, g, b),
{
    out.append("rgb(");
    push_digits(out, r as u128);
    out.append(", ");
    push_digits(out, g as u128);
    out.append(", ");
    push_digits(out, b as u128);
    out.append(") ");
    assert(final(out)@ =~= old(out)@ + rgb_text(r, g, b));
}

/// Appends `rgba(<r>, <g>, <b>, <a>)`.
pub fn push_rgba(out: &mut String, r: u8, g: u8, b: u8, a: Decimal)
    ensures
        final(out)@ == old(out)@ + rgba_text(r, g, b, a),
{
    out.append("rgba(");
    push_digits(out, r as u128);
    out.append(", ");
    push_digits(out, g as u128);
    out.append(", ");
    push_digits(out, b as u128);
    out.append(", ");
    push_decimal(out, a);
    out.append(")");
    assert(final(out)@ =~= old(out)@ + rgba_text(r, g, b, a));
}

impl<'a> Color<'a> {
    /// The object-property text of this color, ending in a comma:
    /// `color: "<h>",`, `color: "rgb(<r>, <g>, <b>) ",` or
    /// `color: "rgba(<r>, <g>, <b>, <a>)",`.
    pub open spec fn text(self) -> Seq<char> {
        match self {
            Color::RGB(r, g, b) => "color: \""@ + rgb_text(r, g, b) + "\","@,
            Color::RGBa(r, g, b, a) => "color: \""@ + rgba_text(r, g, b, a) + "\","@,
            Color::Hex(h) => "color: \""@ + h@ + "\","@,
        }
    }

    /// Appends the text of this color.
    pub fn write_text(&self, out: &mut String)
        ensures
            final(out)@ == old(out)@ + self.text(),
    {
        out.append("color: \"");
        match self {
            Color::RGB(r, g, b) => push_rgb(out, *r, *g, *b),
            Color::RGBa(r, g, b, a) => push_rgba(out, *r, *g, *b, *a),
            Color::Hex(h) => out.append(h),
        }
        out.append("\",");
        assert(final(out)@ =~= old(out)@ + self.text());
    }

    /// The text of this color, as a new string.
    pub fn to_text(&self) -> (r: String)
        ensures
            r@ == self.text(),
    {
        let mut r = String::new();
        self.write_text(&mut r);
        assert(r@ =~= self.text());
        r
    }
}

} // verus!
