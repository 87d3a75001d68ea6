//! Hardware-facing core of a small x86 protected-mode kernel: descriptor
//! tables, interrupt controller programming, interrupt dispatch, and the PS/2
//! keyboard and mouse protocols.
//!
//! Nothing here touches the hardware. Every function works on plain values and
//! says which port operations and processor operations the platform has to
//! carry out, so that the rules can be stated and proved.

pub mod gdt;
pub mod interrupts;
pub mod platform;
pub mod ps2;
pub mod vga;
