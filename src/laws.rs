//! What holds of every network and of every document it renders.
use vstd::prelude::*;
use crate::number_text::digits;
use crate::node_options::{NodeOptions, node_options_text};
use crate::network::{
    NodeView, EdgeView, document, edge_entry, edge_head, edges_text, has_id, has_pair, ids_unique,
    node_entry, nodes_text, with_edge, with_node, arrow_text, ARRAY_CLOSE, ARROW,
    DEFAULT_NODE_COLOR, DOCUMENT_HEAD, DOCUMENT_TAIL, EDGES_OPEN, NODES_OPEN,
};

verus! {

/// Whether `t` occurs in `s`.
pub open spec fn contains(s: Seq<char>, t: Seq<char>) -> bool {
    exists|k: int| 0 <= k && k + t.len() <= s.len() && #[trigger] s.subrange(k, k + t.len()) == t
}

/// The nodes after adding those of `calls` in order to `ns`.
pub open spec fn nodes_after<'a>(ns: Seq<NodeView<'a>>, calls: Seq<NodeView<'a>>) -> Seq<
    NodeView<'a>,
>
    decreases calls.len(),
{
    if calls.len() == 0 {
        ns
    } else {
        with_node(nodes_after(ns, calls.drop_last()), calls.last())
    }
}

/// What occurs in the middle of a text occurs in the whole.
pub proof fn lemma_contains_in_middle(a: Seq<char>, b: Seq<char>, c: Seq<char>, t: Seq<char>)
    requires
        contains(b, t),
    ensures
        contains(a + b + c, t),
{
    let k = choose|k: int|
        0 <= k && k + t.len() <= b.len() && #[trigger] b.subrange(k, k + t.len()) == t;
    let s = a + b + c;
    assert(s.subrange(a.len() + k, a.len() + k + t.len()) =~= b.subrange(k, k + t.len()));
}

/// Every text occurs in itself.
pub proof fn lemma_contains_self(t: Seq<char>)
    ensures
        contains(t, t),
{
    let k: int = 0;
    assert(t.subrange(k, k + t.len()) =~= t);
}

/// The text of each style directive of a node occurs in the text of all of them.
pub proof fn lemma_node_option_in_text<'a>(opts: Seq<NodeOptions<'a>>, i: int)
    requires
        0 <= i < opts.len(),
    ensures
        contains(node_options_text(opts), opts[i].text()),
    decreases opts.len(),
{
    let front = node_options_text(opts.drop_last());
    if i == opts.len() - 1 {
        lemma_contains_self(opts[i].text());
        lemma_contains_in_middle(front, opts[i].text(), Seq::empty(), opts[i].text());
        assert(front + opts[i].text() + Seq::<char>::empty() =~= node_options_text(opts));
    } else {
        lemma_node_option_in_text(opts.drop_last(), i);
        lemma_contains_in_middle(Seq::empty(), front, opts.last().text(), opts[i].text());
        assert(Seq::<char>::empty() + front + opts.last().text() =~= node_options_text(opts));
    }
}

/// Adding nodes with distinct ids to an empty network keeps each of them,
/// once, in the order of the calls; so the node array of the document holds
/// one entry per id, in that order.
pub proof fn lemma_distinct_nodes_all_kept<'a>(calls: Seq<NodeView<'a>>, es: Seq<EdgeView<'a>>)
    requires
        ids_unique(calls),
    ensures
        nodes_after(Seq::empty(), calls) == calls,
        document(nodes_after(Seq::empty(), calls), es) == document(calls, es),
    decreases calls.len(),
{
    if calls.len() > 0 {
        let front = calls.drop_last();
        assert(ids_unique(front)) by {
            assert forall|i: int, j: int| 0 <= i < j < front.len() implies #[trigger] front[i].id
                != #[trigger] front[j].id by {
                assert(front[i] == calls[i] && front[j] == calls[j]);
            }
        }
        lemma_distinct_nodes_all_kept(front, es);
        assert(!has_id(front, calls.last().id)) by {
            assert forall|i: int| 0 <= i < front.len() implies #[trigger] front[i].id
                != calls.last().id by {
                assert(front[i] == calls[i]);
                assert(calls[i].id != calls[calls.len() - 1].id);
            }
        }
        assert(front.push(calls.last()) =~= calls);
    }
}

/// Adding a node whose id is taken leaves the document as it was.
pub proof fn lemma_duplicate_node_ignored<'a>(
    ns: Seq<NodeView<'a>>,
    es: Seq<EdgeView<'a>>,
    n: NodeView<'a>,
)
    requires
        has_id(ns, n.id),
    ensures
        document(with_node(ns, n), es) == document(ns, es),
{
}

/// Adding an edge whose pair of ends is taken leaves the document as it was.
pub proof fn lemma_duplicate_edge_ignored<'a>(
    ns: Seq<NodeView<'a>>,
    es: Seq<EdgeView<'a>>,
    e: EdgeView<'a>,
)
    requires
        has_pair(es, e.from, e.to),
    ensures
        document(ns, with_edge(es, e)) == document(ns, es),
{
}

/// A new edge adds one entry at the end of the edge array, and that entry
/// names the ends given, whether or not they are nodes.
pub proof fn lemma_edge_names_its_ends<'a>(es: Seq<EdgeView<'a>>, e: EdgeView<'a>)
    requires
        !has_pair(es, e.from, e.to),
    ensures
        edges_text(with_edge(es, e)) == edges_text(es) + edge_entry(e),
        ({
            let ends = "{ from: "@ + digits(e.from as nat) + ", to: "@ + digits(e.to as nat);
            edge_entry(e).subrange(0, ends.len() as int) == ends
        }),
{
    let ends = "{ from: "@ + digits(e.from as nat) + ", to: "@ + digits(e.to as nat);
    assert(es.push(e).drop_last() =~= es);
    assert(edge_entry(e).subrange(0, ends.len() as int) =~= ends);
}

/// The document of an empty network: the fixed text around two empty arrays.
pub proof fn lemma_empty_document<'a>()
    ensures
        document(Seq::<NodeView<'a>>::empty(), Seq::<EdgeView<'a>>::empty())
            == DOCUMENT_HEAD@ + NODES_OPEN@ + ARRAY_CLOSE@ + EDGES_OPEN@ + ARRAY_CLOSE@
            + DOCUMENT_TAIL@,
{
    assert(nodes_text(Seq::<NodeView<'a>>::empty()) =~= Seq::empty());
    assert(edges_text(Seq::<EdgeView<'a>>::empty()) =~= Seq::empty());
    assert(DOCUMENT_HEAD@ + NODES_OPEN@ + Seq::empty() + ARRAY_CLOSE@ + EDGES_OPEN@ + Seq::empty()
        + ARRAY_CLOSE@ + DOCUMENT_TAIL@ =~= DOCUMENT_HEAD@ + NODES_OPEN@ + ARRAY_CLOSE@
        + EDGES_OPEN@ + ARRAY_CLOSE@ + DOCUMENT_TAIL@);
}

/// The entry of a node with no style holds the default color.
pub proof fn lemma_unstyled_node_default_color<'a>(n: NodeView<'a>)
    requires
        n.options is None,
    ensures
        contains(node_entry(n), "color: \""@ + DEFAULT_NODE_COLOR@ + "\","@),
{
    let t = "color: \""@ + DEFAULT_NODE_COLOR@ + "\","@;
    let a = "{ id: "@ + digits(n.id as nat) + ", label: \""@ + n.label + "\", "@;
    lemma_contains_self(t);
    lemma_contains_in_middle(a, t, "},\n"@, t);
    assert(a + t + "},\n"@ =~= node_entry(n));
}

/// The entry of a node holds the text of each of its style directives.
pub proof fn lemma_node_option_shown<'a>(n: NodeView<'a>, i: int)
    requires
        n.options is Some,
        0 <= i < n.options->0.len(),
    ensures
        contains(node_entry(n), n.options->0[i].text()),
{
    let opts = n.options->0;
    let a = "{ id: "@ + digits(n.id as nat) + ", label: \""@ + n.label + "\", "@;
    lemma_node_option_in_text(opts, i);
    lemma_contains_in_middle(a, node_options_text(opts), "},\n"@, opts[i].text());
    assert(a + node_options_text(opts) + "},\n"@ =~= node_entry(n));
}

/// The entry of a directed edge holds the arrow property; that of an
/// undirected edge is its head and closing alone, with nothing between.
pub proof fn lemma_arrow_when_directed<'a>(e: EdgeView<'a>)
    ensures
        e.directed ==> contains(edge_entry(e), ARROW@),
        !e.directed ==> edge_entry(e) == edge_head(e) + " },\n"@,
{
    if e.directed {
        lemma_contains_self(ARROW@);
        lemma_contains_in_middle(edge_head(e), ARROW@, " },\n"@, ARROW@);
    } else {
        assert(edge_head(e) + arrow_text(false) + " },\n"@ =~= edge_head(e) + " },\n"@);
    }
}

} // verus!
