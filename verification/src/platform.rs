//! What the library asks of the platform. The library never executes a
//! privileged instruction itself: it hands out requests, and the platform
//! carries them out in the order given.

use vstd::prelude::*;

verus! {

/// One operation for the platform to carry out.
#[derive(Clone, Copy, Debug, PartialEq, Eq, Structural)]
pub enum Request {
    /// Read one byte from an I/O port and hand it back.
    Read { port: u16 },
    /// Write one byte to an I/O port.
    Write { port: u16, value: u8 },
    /// Wait the fixed delay that separates two polls of a status port.
    Pause,
    /// Stop the processor from taking interrupts.
    DisableInterrupts,
    /// Let the processor take interrupts.
    EnableInterrupts,
    /// Load the segment table register.
    LoadGdt { limit: u16, base: u32 },
    /// Reload the code segment register with `code`, and the stack and data
    /// segment registers with `data`.
    ReloadSegments { code: u16, data: u16 },
    /// Load the interrupt table register.
    LoadIdt { limit: u16, base: u32 },
}

/// One step of a conversation with a device: either the next request, whose
/// answer the following step takes, or the result that ends the conversation.
#[derive(Debug, PartialEq, Eq)]
pub enum Step<T> {
    /// Carry out the request, then take the next step. After a `Read` the next
    /// step takes the byte that was read; after any other request it takes
    /// any byte.
    Ask(Request),
    /// The conversation is over.
    Done(T),
}

} // verus!
