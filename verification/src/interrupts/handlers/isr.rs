//! Handlers of the processor's exceptions. None of them can repair anything:
//! each says what happened and whether the processor must stop.

use vstd::prelude::*;

verus! {

/// A condition that the processor reports through an exception vector.
#[derive(Clone, Copy, Debug, PartialEq, Eq, Structural)]
pub enum Exception {
    /// Vector 0: division by zero.
    DivideByZero,
    /// Vector 1: debug trap.
    DebugTrap,
    /// Vector 3: breakpoint instruction.
    Breakpoint,
    /// Vector 8: an exception while another was being delivered.
    DoubleFault,
    /// Vector 13: general protection fault.
    GeneralProtectionFault,
    /// Vector 14: page fault, with the address whose access faulted.
    PageFault { address: u32 },
    /// Any other vector.
    Unknown { vector: u32 },
}

/// What a handler decided.
#[derive(Clone, Copy, Debug, PartialEq, Eq, Structural)]
pub struct Report {
    /// What happened.
    pub exception: Exception,
    /// Whether the processor is to be halted for good. Where it is not, the
    /// interrupted code goes on.
    pub halt: bool,
}

impl Exception {
    /// The text that names the condition. For `Unknown` the vector number
    /// follows the text.
    pub fn message(&self) -> (text: &'static str)
        ensures
            text@ == match *self {
                Exception::DivideByZero => "Divide by zero exception\n"@,
                Exception::DebugTrap => "Debug exception\n"@,
                Exception::Breakpoint => "Breakpoint exception\n"@,
                Exception::DoubleFault => "Double fault exception\n"@,
                Exception::GeneralProtectionFault => "General protection fault exception\n"@,
                Exception::PageFault { .. } => "Page fault exception\n"@,
                Exception::Unknown { .. } => "Unknown exception: "@,
            },
    {
        match self {
            Exception::DivideByZero => "Divide by zero exception\n",
            Exception::DebugTrap => "Debug exception\n",
            Exception::Breakpoint => "Breakpoint exception\n",
            Exception::DoubleFault => "Double fault exception\n",
            Exception::GeneralProtectionFault => "General protection fault exception\n",
            Exception::PageFault { .. } => "Page fault exception\n",
            Exception::Unknown { .. } => "Unknown exception: ",
        }
    }
}

/// A breakpoint halts the processor.
pub fn handle_breakpoint() -> (report: Report)
    ensures
        report == (Report { exception: Exception::Breakpoint, halt: true }),
{
    Report { exception: Exception::Breakpoint, halt: true }
}

/// A double fault halts the processor.
pub fn handle_double_fault() -> (report: Report)
    ensures
        report == (Report { exception: Exception::DoubleFault, halt: true }),
{
    Report { exception: Exception::DoubleFault, halt: true }
}

/// A general protection fault halts the processor.
pub fn handle_general_protection_fault() -> (report: Report)
    ensures
        report == (Report { exception: Exception::GeneralProtectionFault, halt: true }),
{
    Report { exception: Exception::GeneralProtectionFault, halt: true }
}

/// A page fault halts the processor. `address` is what the fault address
/// register held.
pub fn handle_page_fault(address: u32) -> (report: Report)
    ensures
        report == (Report { exception: Exception::PageFault { address }, halt: true }),
{
    Report { exception: Exception::PageFault { address }, halt: true }
}

} // verus!
