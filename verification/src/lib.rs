//! An in-memory model of the pieces of a graph drawing (styles, arrows,
//! nodes, edges and subgraphs) together with their rendering as DOT text.
//!
//! Every rendering function is specified by a `Seq<char>`-valued spec
//! function of the value's view, so the produced text is pinned down
//! character for character.

pub mod arrow;
pub mod attrs;
pub mod edge;
pub mod edge_clauses;
pub mod node;
pub mod style;
pub mod subgraph;
pub mod utils;

pub use arrow::Arrow;
pub use edge::Edge;
pub use node::Node;
pub use style::Style;
pub use subgraph::Subgraph;
