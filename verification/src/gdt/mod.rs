//! Segment table.

pub mod gdt;
