use network_vis::edge_options::EdgeOptions;
use network_vis::node_options::NodeOptions;
use network_vis::number_text::Decimal;
use network_vis::Network;

#[test]
fn test_graph() {
    let mut net = Network::new();
    net.add_node(0, "Cool", None);
    net.add_node(1, "Cooler", Some(vec![NodeOptions::Hex("#ff0000"), NodeOptions::Shape("hexagon"), NodeOptions::Title("not slime boy")]));

    net.add_edge(0, 1, Some(vec![EdgeOptions::Hex("#ff0000"), EdgeOptions::Opacity(Decimal::new(3, 1))]), false);

    net.add_node(2, "Coolerer", None);
    net.add_node(3, "Coolererer", Some(vec![NodeOptions::Hex("#ff0000"), NodeOptions::Shape("hexagon")]));

    net.add_edge(2, 3, Some(vec![EdgeOptions::Hex("#ff0000"), EdgeOptions::Opacity(Decimal::new(3, 1))]), false);
    let html = net.render();
    assert!(html.starts_with("<html>"));
    assert!(html.ends_with("</script></body></html>"));
    assert!(html.contains("{ id: 3, label: \"Coolererer\", color: \"#ff0000\",shape: \"hexagon\",},\n"));
    assert!(html.contains("{ from: 2, to: 3, color: {color: \"#ff0000\",opacity: 0.3,} },\n"));
}
