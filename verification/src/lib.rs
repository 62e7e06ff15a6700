//! A small verified walkthrough of value-copy semantics, ownership
//! transfer, explicit deep copies, and shared versus exclusive borrows.
//!
//! Each routine in [`routines`] performs one ownership-related operation
//! on short text values and is specified by an exact contract.  The
//! [`script`] module strings the routines together in a fixed order and
//! returns the full sequence of description lines that the walkthrough
//! produces, pinned down line by line in its contract.

pub mod decimal;
pub mod routines;
pub mod script;
