//! Handlers of the hardware interrupts that are not a device driver of their
//! own: the timer tick, and the keyboard's entry into its driver.

use vstd::prelude::*;
use crate::ps2::keyboard::{
    decoded,
    enqueued,
    handle_keyboard_input,
    modifiers_after,
    KeyBuffer,
    Modifiers,
};

verus! {

/// The tick count is reported once every so many ticks.
pub const TICK_REPORT_PERIOD: u32 = 100;

/// The tick count after one more tick. It starts again at 0 after the largest
/// count.
pub open spec fn ticked(ticks: u32) -> u32 {
    if ticks == u32::MAX {
        0
    } else {
        (ticks + 1) as u32
    }
}

/// The report that a tick count is due for: the count itself, once every
/// `TICK_REPORT_PERIOD` ticks.
pub open spec fn report_due(ticks: u32) -> Option<u32> {
    if ticks % TICK_REPORT_PERIOD == 0 {
        Some(ticks)
    } else {
        None
    }
}

/// Counts one timer tick. Returns the new count when it is due for a report.
pub fn handle_timer(ticks: &mut u32) -> (report: Option<u32>)
    ensures
        *final(ticks) == ticked(*old(ticks)),
        report == report_due(ticked(*old(ticks))),
{
    *ticks = if *ticks == u32::MAX {
        0
    } else {
        *ticks + 1
    };
    if *ticks % TICK_REPORT_PERIOD == 0 {
        Some(*ticks)
    } else {
        None
    }
}

/// Serves the keyboard interrupt: `scancode` is the byte the keyboard had
/// ready. It goes through the decoder, and the character it produces, if any,
/// is queued and returned.
pub fn handle_keyboard(modifiers: &mut Modifiers, keys: &mut KeyBuffer, scancode: u8) -> (result:
    Option<char>)
    ensures
        *final(modifiers) == modifiers_after(*old(modifiers), scancode),
        result == decoded(*old(modifiers), scancode),
        final(keys)@ == match result {
            Some(c) => enqueued(old(keys)@, c),
            None => old(keys)@,
        },
{
    handle_keyboard_input(modifiers, keys, scancode)
}

} // verus!
