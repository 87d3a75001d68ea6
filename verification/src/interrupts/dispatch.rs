//! The dispatcher: the one place where every trapped vector arrives. A
//! vector either names an exception that the kernel cannot repair, and the
//! processor halts, or it is served, and the interrupted code goes on.

use vstd::prelude::*;
use crate::interrupts::handlers::isr::Report;
use crate::interrupts::idt::{reported, route_exception};
use crate::interrupts::pic::{
    handle_interrupt,
    serves,
    untouched,
    Devices,
    Pics,
    Served,
    EXCEPTION_VECTORS,
};

verus! {

/// How the handling of a trapped vector ended.
pub enum Outcome {
    /// The vector named an exception that ends in a halt. The platform
    /// reports it and halts the processor for good.
    Halted(Report),
    /// The vector was served. The platform carries out the writes that end
    /// the interrupt and returns to the interrupted code.
    Resumed(Served),
}

/// Whether a vector names an exception that ends in a halt: division by zero,
/// debug trap, breakpoint, double fault, general protection fault, page fault.
pub open spec fn is_fatal(vector: u8) -> bool {
    reported(vector as u32, 0).halt
}

/// Handles the trapped vector `vector`. `data` is the byte read from the data
/// port of the vector's route, for a route that has one; `fault_address` is
/// what the fault address register held.
///
/// A fatal exception is reported and changes nothing. Every other vector is
/// served as a hardware interrupt: the driver on its route does its work, and
/// the interrupt is ended, also where no driver serves the vector.
pub fn dispatch(devices: &mut Devices, vector: u8, data: u8, fault_address: u32) -> (outcome: Outcome)
    ensures
        match outcome {
            Outcome::Halted(report) => {
                &&& is_fatal(vector)
                &&& report == reported(vector as u32, fault_address)
                &&& untouched(*old(devices), *final(devices))
            },
            Outcome::Resumed(served) => {
                &&& !is_fatal(vector)
                &&& serves(*old(devices), *final(devices), vector, data, served)
            },
        },
{
    let report = route_exception(vector as u32, fault_address);
    if report.halt {
        Outcome::Halted(report)
    } else {
        Outcome::Resumed(handle_interrupt(devices, vector, data))
    }
}

/// A fatal exception is never a hardware interrupt: its vector is an
/// exception vector, and no line of the interrupt controllers raises it,
/// however they are programmed.
pub proof fn lemma_fatal_is_exception(pics: Pics, vector: u8)
    requires
        pics.well_formed(),
        is_fatal(vector),
    ensures
        vector < EXCEPTION_VECTORS,
        pics.line_of(vector).is_none(),
{
}

} // verus!
