//! The physical shapes that effects draw on.
pub mod lantern;
