//! Singly linked, singly owned stacks.
//!
//! `first` holds a minimal stack of `i32` values built from a two-case link;
//! `second` holds the generic stack with peeking and three kinds of traversal.
//! Both are modelled as a `Seq` whose index 0 is the head (the element most
//! recently pushed).
pub mod first;
pub mod second;
pub mod laws;
