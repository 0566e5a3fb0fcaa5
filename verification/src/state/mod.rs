//! The program's own account records.
pub mod contributor;
pub mod fundraiser;
