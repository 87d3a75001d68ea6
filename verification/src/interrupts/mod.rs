//! Interrupt table, interrupt controllers and the handlers behind them.

pub mod dispatch;
pub mod handlers;
pub mod idt;
pub mod pic;
