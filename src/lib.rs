//! Singly-linked stacks built from an owned chain of heap nodes.
pub mod first;
pub mod second;
pub mod model;
