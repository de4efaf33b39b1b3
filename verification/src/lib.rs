//! A minimal singly linked list: each node owns the rest of the chain, a
//! borrowed cursor walks it front to back, a builder turns a vector into a
//! chain that traverses in input order, and a renderer prints the elements
//! as a bracketed, comma-separated line.

pub mod list;
pub mod render;

pub use list::Iter;
pub use list::List;
pub use list::Node;
