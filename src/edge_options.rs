//! Style directives of an edge and their object-property text.
use vstd::prelude::*;
use vstd::string::*;
use crate::color::{Color, rgb_text, rgba_text, push_rgb, push_rgba};
use crate::number_text::{Decimal, decimal_text, push_decimal};

verus! {

/// A style directive of an edge: its color, given as a color value or by
/// name, a color inherited from a node, its opacity, or the color it takes
/// when highlighted.
#[derive(Clone, Copy, Debug)]
pub enum EdgeOptions<'a> {
    Color(Color<'a>),
    Name(&'a str),
    Inherit(&'a str),
    Opacity(Decimal),
    Highlight(u8, u8, u8),
    Highlighta(u8, u8, u8, Decimal),
    HighlightName(&'a str),
}

#[allow(non_snake_case)]
impl<'a> EdgeOptions<'a> {
    /// The color given by the hex string `hex`.
    pub fn Hex(hex: &'a str) -> (r: Self)
        ensures
            r == EdgeOptions::Color(Color::Hex(hex)),
    {
        EdgeOptions::Color(Color::Hex(hex))
    }

    /// The color given by red, green and blue.
    pub fn RGB(r: u8, g: u8, b: u8) -> (o: Self)
        ensures
            o == EdgeOptions::Color(Color::RGB(r, g, b)),
    {
        EdgeOptions::Color(Color::RGB(r, g, b))
    }

    /// The color given by red, green, blue and alpha.
    pub fn RGBa(r: u8, g: u8, b: u8, a: Decimal) -> (o: Self)
        ensures
            o == EdgeOptions::Color(Color::RGBa(r, g, b, a)),
    {
        EdgeOptions::Color(Color::RGBa(r, g, b, a))
    }

    /// The object-property text of this directive, ending in a comma.
    pub open spec fn text(self) -> Seq<char> {
        match self {
            EdgeOptions::Color(c) => c.text(),
            EdgeOptions::Name(n) => "color: \""@ + n@ + "\","@,
            EdgeOptions::Inherit(n) => "inherit: \""@ + n@ + "\","@,
            EdgeOptions::Opacity(a) => "opacity: "@ + decimal_text(a) + ","@,
            EdgeOptions::Highlight(r, g, b) => "highlight: \""@ + rgb_text(r, g, b) + "\","@,
            EdgeOptions::Highlighta(r, g, b, a) => "highlight: \""@ + rgba_text(r, g, b, a)
                + " \","@,
            EdgeOptions::HighlightName(n) => "highlight: \""@ + n@ + "\","@,
        }
    }

    /// Appends the text of this directive.
    pub fn write_text(&self, out: &mut String)
        ensures
            final(out)@ == old(out)@ + self.text(),
    {
        match self {
            EdgeOptions::Color(c) => c.write_text(out),
            EdgeOptions::Name(n) => {
                out.append("color: \"");
                out.append(n);
                out.append("\",");
            },
            EdgeOptions::Inherit(n) => {
                out.append("inherit: \"");
                out.append(n);
                out.append("\",");
            },
            EdgeOptions::Opacity(a) => {
                out.append("opacity: ");
                push_decimal(out, *a);
                out.append(",");
            },
            EdgeOptions::Highlight(r, g, b) => {
                out.append("highlight: \"");
                push_rgb(out, *r, *g, *b);
                out.append("\",");
            },
            EdgeOptions::Highlighta(r, g, b, a) => {
                out.append("highlight: \"");
                push_rgba(out, *r, *g, *b, *a);
                out.append(" \",");
            },
            EdgeOptions::HighlightName(n) => {
                out.append("highlight: \"");
                out.append(n);
                out.append("\",");
            },
        }
        assert(final(out)@ =~= old(out)@ + self.text());
    }

    /// The text of this directive, as a new string.
    pub fn to_text(&self) -> (r: String)
        ensures
            r@ == self.text(),
    {
        let mut r = String::new();
        self.write_text(&mut r);
        assert(r@ =~= self.text());
        r
    }
}

/// The texts of `opts`, one after another in order.
pub open spec fn edge_options_text<'a>(opts: Seq<EdgeOptions<'a>>) -> Seq<char>
    decreases opts.len(),
{
    if opts.len() == 0 {
        Seq::empty()
    } else {
        edge_options_text(opts.drop_last()) + opts.last().text()
    }
}

/// Appends the texts of `opts` in order.
pub fn write_edge_options(out: &mut String, opts: &Vec<EdgeOptions>)
    ensures
        final(out)@ == old(out)@ + edge_options_text(opts@),
{
    let ghost start = out@;
    let mut i: usize = 0;
    assert(opts@.take(0) =~= Seq::<EdgeOptions>::empty());
    while i < opts.len()
        invariant
            i <= opts@.len(),
            out@ == start + edge_options_text(opts@.take(i as int)),
        decreases opts@.len() - i,
    {
        opts[i].write_text(out);
        assert(opts@.take(i + 1).drop_last() =~= opts@.take(i as int));
        i = i + 1;
    }
    assert(opts@.take(i as int) =~= opts@);
}

} // verus!
