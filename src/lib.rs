//! Describe a small graph of nodes and edges, each with optional style
//! directives, and render it as a self-contained HTML document that draws
//! the graph with the vis-network browser library.

pub mod number_text;
pub mod color;
pub mod node_options;
pub mod edge_options;
pub mod network;
pub mod laws;

pub use network::Network;
