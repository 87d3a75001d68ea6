//! Handlers of processor exceptions and of hardware interrupts.

pub mod irq;
pub mod isr;
