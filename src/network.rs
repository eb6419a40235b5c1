//! The graph builder and the HTML document it renders.
use vstd::prelude::*;
use vstd::string::*;
use crate::number_text::{digits, push_digits};
use crate::node_options::{NodeOptions, node_options_text, write_node_options};
use crate::edge_options::{EdgeOptions, edge_options_text, write_edge_options};

verus! {

/// The opening of the document: it loads vis-network and opens the script
/// that declares the graph.
pub const DOCUMENT_HEAD: &'static str = "<html><body id=\"mynetwork\"><script type=\"text/javascript\" src=\"https://unpkg.com/vis-network/standalone/umd/vis-network.min.js\"></script>\n<script type=\"text/javascript\">\n";

/// The opening of the node array.
pub const NODES_OPEN: &'static str = "var nodes = new vis.DataSet([";

/// The opening of the edge array.
pub const EDGES_OPEN: &'static str = "var edges = new vis.DataSet([";

/// The closing of either array.
pub const ARRAY_CLOSE: &'static str = "]);\n";

/// The end of the document: it draws the two arrays in the element
/// `mynetwork`, with round nodes unless a node says otherwise.
pub const DOCUMENT_TAIL: &'static str = "var container = document.getElementById(\"mynetwork\");\nvar data = {\n    nodes: nodes,\n    edges: edges\n};\nvar options = { nodes: {shape: \"dot\" }};\nvar network = new vis.Network(container, data, options);\n\n</script></body></html>";

/// The color of a node that was given no style.
pub const DEFAULT_NODE_COLOR: &'static str = "#73ef81";

/// The color of an edge that was given no style.
pub const DEFAULT_EDGE_COLOR: &'static str = "black";

/// The property that puts an arrowhead at the target of a directed edge.
pub const ARROW: &'static str = ", arrows: \"to\"";

/// A node as the document shows it.
pub ghost struct NodeView<'a> {
    pub id: u128,
    pub label: Seq<char>,
    pub options: Option<Seq<NodeOptions<'a>>>,
}

/// An edge as the document shows it.
pub ghost struct EdgeView<'a> {
    pub from: u128,
    pub to: u128,
    pub options: Option<Seq<EdgeOptions<'a>>>,
    pub directed: bool,
}

/// The style text of a node: its directives in order, or the default color.
pub open spec fn node_style_text<'a>(options: Option<Seq<NodeOptions<'a>>>) -> Seq<char> {
    match options {
        Some(s) => node_options_text(s),
        None => NodeOptions::Hex(DEFAULT_NODE_COLOR).text(),
    }
}

/// The style text of an edge: its directives in order, or the default color.
pub open spec fn edge_style_text<'a>(options: Option<Seq<EdgeOptions<'a>>>) -> Seq<char> {
    match options {
        Some(s) => edge_options_text(s),
        None => EdgeOptions::Name(DEFAULT_EDGE_COLOR).text(),
    }
}

/// The entry of a node in the node array:
/// `{ id: <id>, label: "<label>", <style>},` and a newline.
pub open spec fn node_entry<'a>(n: NodeView<'a>) -> Seq<char> {
    "{ id: "@ + digits(n.id as nat) + ", label: \""@ + n.label + "\", "@
        + node_style_text(n.options) + "},\n"@
}

/// The arrow property of an edge: present exactly when it is directed.
pub open spec fn arrow_text(directed: bool) -> Seq<char> {
    if directed {
        ARROW@
    } else {
        Seq::empty()
    }
}

/// The entry of an edge up to its arrow property:
/// `{ from: <from>, to: <to>, color: {<style>}`.
pub open spec fn edge_head<'a>(e: EdgeView<'a>) -> Seq<char> {
    "{ from: "@ + digits(e.from as nat) + ", to: "@ + digits(e.to as nat) + ", color: {"@
        + edge_style_text(e.options) + "}"@
}

/// The entry of an edge in the edge array: its head, its arrow property,
/// then ` },` and a newline.
pub open spec fn edge_entry<'a>(e: EdgeView<'a>) -> Seq<char> {
    edge_head(e) + arrow_text(e.directed) + " },\n"@
}

/// The entries of `ns` in order.
pub open spec fn nodes_text<'a>(ns: Seq<NodeView<'a>>) -> Seq<char>
    decreases ns.len(),
{
    if ns.len() == 0 {
        Seq::empty()
    } else {
        nodes_text(ns.drop_last()) + node_entry(ns.last())
    }
}

/// The entries of `es` in order.
pub open spec fn edges_text<'a>(es: Seq<EdgeView<'a>>) -> Seq<char>
    decreases es.len(),
{
    if es.len() == 0 {
        Seq::empty()
    } else {
        edges_text(es.drop_last()) + edge_entry(es.last())
    }
}

/// The whole document for the nodes `ns` and the edges `es`.
pub open spec fn document<'a>(ns: Seq<NodeView<'a>>, es: Seq<EdgeView<'a>>) -> Seq<char> {
    DOCUMENT_HEAD@ + NODES_OPEN@ + nodes_text(ns) + ARRAY_CLOSE@ + EDGES_OPEN@ + edges_text(es)
        + ARRAY_CLOSE@ + DOCUMENT_TAIL@
}

/// Whether some node of `ns` has the id `id`.
pub open spec fn has_id<'a>(ns: Seq<NodeView<'a>>, id: u128) -> bool {
    exists|i: int| 0 <= i < ns.len() && #[trigger] ns[i].id == id
}

/// Whether some edge of `es` goes from `from` to `to`.
pub open spec fn has_pair<'a>(es: Seq<EdgeView<'a>>, from: u128, to: u128) -> bool {
    exists|i: int| 0 <= i < es.len() && #[trigger] es[i].from == from && es[i].to == to
}

/// No two nodes of `ns` share an id.
pub open spec fn ids_unique<'a>(ns: Seq<NodeView<'a>>) -> bool {
    forall|i: int, j: int| 0 <= i < j < ns.len() ==> #[trigger] ns[i].id != #[trigger] ns[j].id
}

/// No two edges of `es` share both ends, in the same order.
pub open spec fn pairs_unique<'a>(es: Seq<EdgeView<'a>>) -> bool {
    forall|i: int, j: int|
        0 <= i < j < es.len() ==> !(#[trigger] es[i].from == #[trigger] es[j].from && es[i].to
            == es[j].to)
}

/// `ns` after adding `n`: unchanged where its id is taken, else `n` at the end.
pub open spec fn with_node<'a>(ns: Seq<NodeView<'a>>, n: NodeView<'a>) -> Seq<NodeView<'a>> {
    if has_id(ns, n.id) {
        ns
    } else {
        ns.push(n)
    }
}

/// `es` after adding `e`: unchanged where its pair is taken, else `e` at the end.
pub open spec fn with_edge<'a>(es: Seq<EdgeView<'a>>, e: EdgeView<'a>) -> Seq<EdgeView<'a>> {
    if has_pair(es, e.from, e.to) {
        es
    } else {
        es.push(e)
    }
}

/// The view of an optional vector.
pub open spec fn opt_view<T>(o: Option<Vec<T>>) -> Option<Seq<T>> {
    match o {
        Some(v) => Some(v@),
        None => None,
    }
}

struct Node<'a> {
    id: u128,
    label: String,
    options: Option<Vec<NodeOptions<'a>>>,
}

struct Edge<'a> {
    from: u128,
    to: u128,
    options: Option<Vec<EdgeOptions<'a>>>,
    directed: bool,
}

impl<'a> Node<'a> {
    spec fn view(self) -> NodeView<'a> {
        NodeView { id: self.id, label: self.label@, options: opt_view(self.options) }
    }
}

impl<'a> Edge<'a> {
    spec fn view(self) -> EdgeView<'a> {
        EdgeView {
            from: self.from,
            to: self.to,
            options: opt_view(self.options),
            directed: self.directed,
        }
    }
}

/// Appends the entry of `n`.
fn write_node(out: &mut String, n: &Node)
    ensures
        final(out)@ == old(out)@ + node_entry(n.view()),
{
    out.append("{ id: ");
    push_digits(out, n.id);
    out.append(", label: \"");
    out.append(n.label.as_str());
    out.append("\", ");
    match &n.options {
        Some(v) => write_node_options(out, v),
        None => NodeOptions::Hex(DEFAULT_NODE_COLOR).write_text(out),
    }
    out.append("},\n");
    assert(final(out)@ =~= old(out)@ + node_entry(n.view()));
}

/// Appends the entry of `e`.
fn write_edge(out: &mut String, e: &Edge)
    ensures
        final(out)@ == old(out)@ + edge_entry(e.view()),
{
    out.append("{ from: ");
    push_digits(out, e.from);
    out.append(", to: ");
    push_digits(out, e.to);
    out.append(", color: {");
    match &e.options {
        Some(v) => write_edge_options(out, v),
        None => EdgeOptions::Name(DEFAULT_EDGE_COLOR).write_text(out),
    }
    out.append("}");
    if e.directed {
        out.append(ARROW);
    }
    out.append(" },\n");
    assert(final(out)@ =~= old(out)@ + edge_entry(e.view()));
}

/// A graph under construction: its nodes and its edges, each in the order
/// in which they were first added. A node whose id is already taken, and an
/// edge whose pair of ends (in order) is already taken, are ignored.
pub struct Network<'a> {
    nodes: Vec<Node<'a>>,
    edges: Vec<Edge<'a>>,
}

impl<'a> Network<'a> {
    /// The nodes, in the order in which they were added.
    pub closed spec fn node_list(&self) -> Seq<NodeView<'a>> {
        self.nodes@.map_values(|n: Node<'a>| n.view())
    }

    /// The edges, in the order in which they were added.
    pub closed spec fn edge_list(&self) -> Seq<EdgeView<'a>> {
        self.edges@.map_values(|e: Edge<'a>| e.view())
    }

    /// Node ids are unique, and so are the pairs of edge ends.
    pub open spec fn wf(&self) -> bool {
        ids_unique(self.node_list()) && pairs_unique(self.edge_list())
    }

    /// An empty network.
    pub fn new() -> (r: Self)
        ensures
            r.node_list() == Seq::<NodeView<'a>>::empty(),
            r.edge_list() == Seq::<EdgeView<'a>>::empty(),
            r.wf(),
    {
        let r = Network { nodes: Vec::new(), edges: Vec::new() };
        assert(r.node_list() =~= Seq::<NodeView<'a>>::empty());
        assert(r.edge_list() =~= Seq::<EdgeView<'a>>::empty());
        r
    }

    /// Adds the node `id` with the label `name` and the style directives
    /// `node_options` (the default color where `None`). Nothing changes
    /// where a node with this id is already there.
    pub fn add_node(&mut self, id: u128, name: &str, node_options: Option<Vec<NodeOptions<'a>>>)
        requires
            old(self).wf(),
        ensures
            final(self).node_list() == with_node(
                old(self).node_list(),
                NodeView { id, label: name@, options: opt_view(node_options) },
            ),
            final(self).edge_list() == old(self).edge_list(),
            final(self).wf(),
    {
        let ghost n = NodeView { id, label: name@, options: opt_view(node_options) };
        let mut i: usize = 0;
        while i < self.nodes.len()
            invariant
                self.node_list() == old(self).node_list(),
                self.edge_list() == old(self).edge_list(),
                self.wf(),
                i <= self.nodes@.len(),
                forall|j: int| 0 <= j < i ==> self.nodes@[j].id != id,
            decreases self.nodes@.len() - i,
        {
            if self.nodes[i].id == id {
                assert(self.node_list()[i as int].id == id);
                return;
            }
            i = i + 1;
        }
        assert(!has_id(old(self).node_list(), id)) by {
            assert forall|j: int| 0 <= j < old(self).node_list().len() implies
                #[trigger] old(self).node_list()[j].id != id by {
                assert(self.nodes@[j].id != id);
            }
        }
        let ghost before = self.node_list();
        self.nodes.push(Node { id, label: String::from_str(name), options: node_options });
        assert(self.node_list() =~= before.push(n));
    }

    /// Adds the edge from `from` to `to` with the style directives
    /// `edge_options` (the default color where `None`), with an arrowhead at
    /// `to` when `directed`. The ends need not be nodes of the network.
    /// Nothing changes where an edge from `from` to `to` is already there.
    pub fn add_edge(
        &mut self,
        from: u128,
        to: u128,
        edge_options: Option<Vec<EdgeOptions<'a>>>,
        directed: bool,
    )
        requires
            old(self).wf(),
        ensures
            final(self).edge_list() == with_edge(
                old(self).edge_list(),
                EdgeView { from, to, options: opt_view(edge_options), directed },
            ),
            final(self).node_list() == old(self).node_list(),
            final(self).wf(),
    {
        let ghost e = EdgeView { from, to, options: opt_view(edge_options), directed };
        let mut i: usize = 0;
        while i < self.edges.len()
            invariant
                self.node_list() == old(self).node_list(),
                self.edge_list() == old(self).edge_list(),
                self.wf(),
                i <= self.edges@.len(),
                forall|j: int|
                    0 <= j < i ==> !(self.edges@[j].from == from && self.edges@[j].to == to),
            decreases self.edges@.len() - i,
        {
            if self.edges[i].from == from && self.edges[i].to == to {
                assert(self.edge_list()[i as int].from == from);
                return;
            }
            i = i + 1;
        }
        assert(!has_pair(old(self).edge_list(), from, to)) by {
            assert forall|j: int| 0 <= j < old(self).edge_list().len() implies
                !(#[trigger] old(self).edge_list()[j].from == from && old(self).edge_list()[j].to
                    == to) by {
                assert(!(self.edges@[j].from == from && self.edges@[j].to == to));
            }
        }
        let ghost before = self.edge_list();
        self.edges.push(Edge { from, to, options: edge_options, directed });
        assert(self.edge_list() =~= before.push(e));
    }

    /// The HTML document that draws this network.
    pub fn render(&self) -> (r: String)
        ensures
            r@ == document(self.node_list(), self.edge_list()),
    {
        let mut out = String::new();
        out.append(DOCUMENT_HEAD);
        out.append(NODES_OPEN);
        let ghost start = out@;
        let mut i: usize = 0;
        assert(self.node_list().take(0) =~= Seq::<NodeView<'a>>::empty());
        while i < self.nodes.len()
            invariant
                i <= self.nodes@.len(),
                out@ == start + nodes_text(self.node_list().take(i as int)),
            decreases self.nodes@.len() - i,
        {
            write_node(&mut out, &self.nodes[i]);
            assert(self.node_list().take(i + 1).drop_last() =~= self.node_list().take(i as int));
            i = i + 1;
        }
        assert(self.node_list().take(i as int) =~= self.node_list());
        out.append(ARRAY_CLOSE);
        out.append(EDGES_OPEN);
        let ghost middle = out@;
        let mut k: usize = 0;
        assert(self.edge_list().take(0) =~= Seq::<EdgeView<'a>>::empty());
        while k < self.edges.len()
            invariant
                k <= self.edges@.len(),
                out@ == middle + edges_text(self.edge_list().take(k as int)),
            decreases self.edges@.len() - k,
        {
            write_edge(&mut out, &self.edges[k]);
            assert(self.edge_list().take(k + 1).drop_last() =~= self.edge_list().take(k as int));
            k = k + 1;
        }
        assert(self.edge_list().take(k as int) =~= self.edge_list());
        out.append(ARRAY_CLOSE);
        out.append(DOCUMENT_TAIL);
        assert(out@ =~= document(self.node_list(), self.edge_list()));
        out
    }
}

} // verus!
