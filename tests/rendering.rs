use network_vis::color::Color;
use network_vis::edge_options::EdgeOptions;
use network_vis::network::{ARROW, DOCUMENT_HEAD, DOCUMENT_TAIL};
use network_vis::node_options::NodeOptions;
use network_vis::number_text::Decimal;
use network_vis::Network;

fn node_array(html: &str) -> String {
    let start = html.find("var nodes = new vis.DataSet([").unwrap() + "var nodes = new vis.DataSet([".len();
    let end = html[start..].find("]);\n").unwrap() + start;
    html[start..end].to_string()
}

fn edge_array(html: &str) -> String {
    let start = html.find("var edges = new vis.DataSet([").unwrap() + "var edges = new vis.DataSet([".len();
    let end = html[start..].find("]);\n").unwrap() + start;
    html[start..end].to_string()
}

#[test]
fn example_scenario() {
    let mut net = Network::new();
    net.add_node(0, "Cool", None);
    net.add_node(1, "Cooler", Some(vec![NodeOptions::Hex("#ff0000"), NodeOptions::Shape("hexagon"), NodeOptions::Title("not slime boy")]));
    net.add_edge(0, 1, Some(vec![EdgeOptions::Hex("#ff0000"), EdgeOptions::Opacity(Decimal::new(3, 1))]), false);
    let html = net.render();
    assert_eq!(
        node_array(&html),
        "{ id: 0, label: \"Cool\", color: \"#73ef81\",},\n\
         { id: 1, label: \"Cooler\", color: \"#ff0000\",shape: \"hexagon\",title: \"not slime boy\",},\n"
    );
    assert_eq!(edge_array(&html), "{ from: 0, to: 1, color: {color: \"#ff0000\",opacity: 0.3,} },\n");
    assert!(!html.contains("arrows"));
}

#[test]
fn empty_network_document() {
    let html = Network::new().render();
    let expected = format!(
        "{}var nodes = new vis.DataSet([]);\nvar edges = new vis.DataSet([]);\n{}",
        DOCUMENT_HEAD, DOCUMENT_TAIL
    );
    assert_eq!(html, expected);
    assert!(html.starts_with("<html><body id=\"mynetwork\"><script type=\"text/javascript\" src=\"https://unpkg.com/vis-network/standalone/umd/vis-network.min.js\"></script>\n"));
    assert!(html.contains("var options = { nodes: {shape: \"dot\" }};"));
    assert!(html.contains("var network = new vis.Network(container, data, options);"));
    assert!(html.ends_with("</script></body></html>"));
}

#[test]
fn distinct_ids_kept_in_order() {
    let mut net = Network::new();
    net.add_node(5, "e", None);
    net.add_node(2, "b", None);
    net.add_node(9, "i", None);
    let nodes = node_array(&net.render());
    let entries: Vec<&str> = nodes.lines().collect();
    assert_eq!(entries.len(), 3);
    assert!(entries[0].starts_with("{ id: 5, label: \"e\""));
    assert!(entries[1].starts_with("{ id: 2, label: \"b\""));
    assert!(entries[2].starts_with("{ id: 9, label: \"i\""));
}

#[test]
fn duplicate_node_ignored() {
    let mut a = Network::new();
    a.add_node(1, "first", None);
    let before = a.render();
    a.add_node(1, "second", Some(vec![NodeOptions::Shape("box")]));
    assert_eq!(a.render(), before);
    assert!(before.contains("label: \"first\""));
    assert!(!before.contains("second"));
}

#[test]
fn duplicate_edge_ignored() {
    let mut a = Network::new();
    a.add_edge(1, 2, None, false);
    let before = a.render();
    a.add_edge(1, 2, Some(vec![EdgeOptions::Name("red")]), true);
    assert_eq!(a.render(), before);
}

#[test]
fn reversed_edge_is_another_edge() {
    let mut a = Network::new();
    a.add_edge(1, 2, None, false);
    a.add_edge(2, 1, None, false);
    assert_eq!(
        edge_array(&a.render()),
        "{ from: 1, to: 2, color: {color: \"black\",} },\n{ from: 2, to: 1, color: {color: \"black\",} },\n"
    );
}

#[test]
fn dangling_edge_keeps_its_ends() {
    let mut a = Network::new();
    a.add_node(1, "only", None);
    a.add_edge(7, 340282366920938463463374607431768211455, None, false);
    assert_eq!(
        edge_array(&a.render()),
        "{ from: 7, to: 340282366920938463463374607431768211455, color: {color: \"black\",} },\n"
    );
}

#[test]
fn unstyled_node_default_color() {
    let mut a = Network::new();
    a.add_node(0, "x", None);
    assert_eq!(node_array(&a.render()), "{ id: 0, label: \"x\", color: \"#73ef81\",},\n");
}

#[test]
fn hexagon_shape_shown() {
    let mut a = Network::new();
    a.add_node(0, "x", Some(vec![NodeOptions::Shape("hexagon")]));
    let html = a.render();
    assert!(html.contains("shape: \"hexagon\""));
    assert!(!html.contains("#73ef81"));
}

#[test]
fn empty_style_list_has_no_default() {
    let mut a = Network::new();
    a.add_node(0, "x", Some(vec![]));
    a.add_edge(0, 0, Some(vec![]), false);
    let html = a.render();
    assert_eq!(node_array(&html), "{ id: 0, label: \"x\", },\n");
    assert_eq!(edge_array(&html), "{ from: 0, to: 0, color: {} },\n");
}

#[test]
fn directed_edge_has_arrow() {
    let mut a = Network::new();
    a.add_edge(0, 1, None, true);
    let edges = edge_array(&a.render());
    assert_eq!(edges, "{ from: 0, to: 1, color: {color: \"black\",}, arrows: \"to\" },\n");
    assert!(edges.contains(ARROW));
}

#[test]
fn undirected_edge_has_no_arrow() {
    let mut a = Network::new();
    a.add_edge(0, 1, None, false);
    let edges = edge_array(&a.render());
    assert!(!edges.contains(ARROW));
    assert!(!edges.contains("arrows"));
}

#[test]
fn color_texts() {
    assert_eq!(Color::Hex("#00ff00").to_text(), "color: \"#00ff00\",");
    assert_eq!(Color::RGB(255, 0, 16).to_text(), "color: \"rgb(255, 0, 16) \",");
    assert_eq!(Color::RGBa(1, 22, 255, Decimal::new(5, 1)).to_text(), "color: \"rgba(1, 22, 255, 0.5)\",");
}

#[test]
fn node_option_texts() {
    assert_eq!(NodeOptions::Shape("box").to_text(), "shape: \"box\",");
    assert_eq!(NodeOptions::Hex("#123456").to_text(), "color: \"#123456\",");
    assert_eq!(NodeOptions::Title("hi there").to_text(), "title: \"hi there\",");
}

#[test]
fn edge_option_texts() {
    assert_eq!(EdgeOptions::Hex("#abcdef").to_text(), "color: \"#abcdef\",");
    assert_eq!(EdgeOptions::RGB(10, 20, 30).to_text(), "color: \"rgb(10, 20, 30) \",");
    assert_eq!(EdgeOptions::RGBa(10, 20, 30, Decimal::new(25, 2)).to_text(), "color: \"rgba(10, 20, 30, 0.25)\",");
    assert_eq!(EdgeOptions::Name("red").to_text(), "color: \"red\",");
    assert_eq!(EdgeOptions::Inherit("from").to_text(), "inherit: \"from\",");
    assert_eq!(EdgeOptions::Opacity(Decimal::new(3, 1)).to_text(), "opacity: 0.3,");
    assert_eq!(EdgeOptions::Highlight(1, 2, 3).to_text(), "highlight: \"rgb(1, 2, 3) \",");
    assert_eq!(EdgeOptions::Highlighta(1, 2, 3, Decimal::new(1, 0)).to_text(), "highlight: \"rgba(1, 2, 3, 1) \",");
    assert_eq!(EdgeOptions::HighlightName("yellow").to_text(), "highlight: \"yellow\",");
}

#[test]
fn repeated_keys_all_emitted() {
    let mut a = Network::new();
    a.add_edge(0, 1, Some(vec![EdgeOptions::Name("red"), EdgeOptions::Name("blue")]), false);
    assert_eq!(edge_array(&a.render()), "{ from: 0, to: 1, color: {color: \"red\",color: \"blue\",} },\n");
}

#[test]
fn decimal_texts() {
    assert_eq!(Decimal::new(3, 1).to_text(), "0.3");
    assert_eq!(Decimal::new(0, 0).to_text(), "0");
    assert_eq!(Decimal::new(7, 0).to_text(), "7");
    assert_eq!(Decimal::new(5, 3).to_text(), "0.005");
    assert_eq!(Decimal::new(1234, 2).to_text(), "12.34");
    assert_eq!(Decimal::new(0, 2).to_text(), "0.00");
    assert_eq!(Decimal::new(18446744073709551615, 0).to_text(), "18446744073709551615");
    assert_eq!(Decimal::new(10, 1).to_text(), "1.0");
}

#[test]
fn largest_node_id() {
    let mut a = Network::new();
    a.add_node(u128::MAX, "big", None);
    assert_eq!(
        node_array(&a.render()),
        "{ id: 340282366920938463463374607431768211455, label: \"big\", color: \"#73ef81\",},\n"
    );
}
