//! A persistent singly-linked list with structural sharing.
//!
//! Every mutating-shaped operation (`cons`, `tail`) returns a new list value
//! and leaves the receiver untouched; unchanged suffixes are shared between
//! versions through reference-counted nodes.

pub mod laws;
pub mod list;
pub mod order;
pub mod render;

pub use list::Iter;
pub use list::List;
