//! Style directives of a node and their object-property text.
use vstd::prelude::*;
use vstd::string::*;

verus! {

/// A style directive of a node: its shape, its color or its hover title.
#[derive(Clone, Copy, Debug)]
pub enum NodeOptions<'a> {
    Shape(&'a str),
    Hex(&'a str),
    Title(&'a str),
}

impl<'a> NodeOptions<'a> {
    /// The object-property text of this directive, ending in a comma:
    /// `shape: "<s>",`, `color: "<c>",` or `title: "<t>",`.
    pub open spec fn text(self) -> Seq<char> {
        match self {
            NodeOptions::Shape(s) => "shape: \""@ + s@ + "\","@,
            NodeOptions::Hex(c) => "color: \""@ + c@ + "\","@,
            NodeOptions::Title(t) => "title: \""@ + t@ + "\","@,
        }
    }

    /// Appends the text of this directive.
    pub fn write_text(&self, out: &mut String)
        ensures
            final(out)@ == old(out)@ + self.text(),
    {
        match self {
            NodeOptions::Shape(s) => {
                out.append("shape: \"");
                out.append(s);
            },
            NodeOptions::Hex(c) => {
                out.append("color: \"");
                out.append(c);
            },
            NodeOptions::Title(t) => {
                out.append("title: \"");
                out.append(t);
            },
        }
        out.append("\",");
        assert(final(out)@ =~= old(out)@ + self.text());
    }

    /// The text of this directive, as a new string.
    pub fn to_text(&self) -> (r: String)
        ensures
            r@ == self.text(),
    {
        let mut r = String::new();
        self.write_text(&mut r);
        assert(r@ =~= self.text());
        r
    }
}

/// The texts of `opts`, one after another in order.
pub open spec fn node_options_text<'a>(opts: Seq<NodeOptions<'a>>) -> Seq<char>
    decreases opts.len(),
{
    if opts.len() == 0 {
        Seq::empty()
    } else {
        node_options_text(opts.drop_last()) + opts.last().text()
    }
}

/// Appends the texts of `opts` in order.
pub fn write_node_options(out: &mut String, opts: &Vec<NodeOptions>)
    ensures
        final(out)@ == old(out)@ + node_options_text(opts@),
{
    let ghost start = out@;
    let mut i: usize = 0;
    assert(opts@.take(0) =~= Seq::<NodeOptions>::empty());
    while i < opts.len()
        invariant
            i <= opts@.len(),
            out@ == start + node_options_text(opts@.take(i as int)),
        decreases opts@.len() - i,
    {
        opts[i].write_text(out);
        assert(opts@.take(i + 1).drop_last() =~= opts@.take(i as int));
        i = i + 1;
    }
    assert(opts@.take(i as int) =~= opts@);
}

} // verus!
