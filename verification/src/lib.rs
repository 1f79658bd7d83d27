//! Small, self-contained studies of ownership: a sequence that is moved and
//! borrowed, a record behind a shared cell whose borrows are checked when
//! they are taken, and an integer that lives in a heap box.
//!
//! Each study computes the lines that a program would print; printing them is
//! left to the caller.

pub mod heap_box;
pub mod sequence;
pub mod shared_cell;
pub mod text;
