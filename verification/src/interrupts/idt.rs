//! The interrupt table: one gate per vector for the exceptions and the
//! hardware interrupts, none for the rest; and the entry point of the
//! exception handlers.

use vstd::prelude::*;
use crate::interrupts::handlers::isr::{
    handle_breakpoint,
    handle_double_fault,
    handle_general_protection_fault,
    handle_page_fault,
    Exception,
    Report,
};
use crate::interrupts::pic::{init_pic, remap_plan, PicState, Pics, EXCEPTION_VECTORS};
use crate::platform::Request;

verus! {

/// A gate of the interrupt table.
#[derive(Copy, Clone, Debug, PartialEq, Eq, Structural)]
pub struct IdtEntry {
    /// Bits 0..16 of the handler's address.
    pub isr_low: u16,
    /// Selector of the code segment the handler runs in.
    pub kernel_cs: u16,
    /// Always 0.
    pub reserved: u8,
    /// Present bit, privilege level and gate type.
    pub attributes: u8,
    /// Bits 16..32 of the handler's address.
    pub isr_high: u16,
}

/// Contents of the interrupt table register.
#[derive(Copy, Clone, Debug, PartialEq, Eq, Structural)]
pub struct Idtr {
    /// Size of the table in bytes, less one.
    pub limit: u16,
    /// Linear address of the table.
    pub base: u32,
}

/// What the trampoline of a vector saved before it called the handler.
#[derive(Copy, Clone, Debug, PartialEq, Eq, Structural)]
pub struct Registers {
    pub ds: u32,
    pub edi: u32,
    pub esi: u32,
    pub ebp: u32,
    pub kern_esp: u32,
    pub ebx: u32,
    pub edx: u32,
    pub ecx: u32,
    pub eax: u32,
    /// The vector that was raised.
    pub interrupt_number: u32,
    /// The error code of the exception, 0 where it has none.
    pub error_code: u32,
    pub eip: u32,
    pub cs: u32,
    pub eflags: u32,
    pub esp: u32,
    pub ss: u32,
}

/// Gates in the interrupt table: one per vector.
pub const IDT_ENTRIES: usize = 256;

/// Bytes of a gate in memory.
pub const GATE_SIZE: usize = 8;

/// Bytes of the interrupt table in memory.
pub const IDT_SIZE: usize = 2048;

/// Selector of the kernel's code segment.
pub const KERNEL_CS: u16 = 0x10;

/// Attributes of every gate installed: present, ring 0, 32-bit interrupt gate.
pub const INTERRUPT_GATE: u8 = 0x8E;

/// Vector of the master controller's line 0.
pub const PIC1_OFFSET: u8 = 0x20;

/// Vector of the slave controller's line 0.
pub const PIC2_OFFSET: u8 = 0x28;

pub const DIVIDE_BY_ZERO_VECTOR: u32 = 0;

pub const DEBUG_VECTOR: u32 = 1;

pub const BREAKPOINT_VECTOR: u32 = 3;

pub const DOUBLE_FAULT_VECTOR: u32 = 8;

pub const GENERAL_PROTECTION_VECTOR: u32 = 13;

pub const PAGE_FAULT_VECTOR: u32 = 14;

/// A gate that sends its vector to the handler at `handler`.
pub open spec fn gate(handler: u32, selector: u16, attributes: u8) -> IdtEntry {
    IdtEntry {
        isr_low: (handler % 65536) as u16,
        kernel_cs: selector,
        reserved: 0,
        attributes,
        isr_high: (handler / 65536) as u16,
    }
}

/// What the table holds for a vector without a handler: all zero, and so not
/// present.
pub open spec fn absent() -> IdtEntry {
    IdtEntry { isr_low: 0, kernel_cs: 0, reserved: 0, attributes: 0, isr_high: 0 }
}

/// Whether the processor takes a gate for present: the top bit of its
/// attributes says so. A vector whose gate is not present faults when it is
/// raised.
pub open spec fn is_present(entry: IdtEntry) -> bool {
    entry.attributes >= 0x80
}

/// The address a gate sends its vector to.
pub open spec fn handler_of(entry: IdtEntry) -> int {
    entry.isr_low + entry.isr_high * 65536
}

/// The eight bytes of a gate in memory, each field low byte first.
pub open spec fn gate_bytes(entry: IdtEntry) -> Seq<u8> {
    seq![
        (entry.isr_low % 256) as u8,
        (entry.isr_low / 256) as u8,
        (entry.kernel_cs % 256) as u8,
        (entry.kernel_cs / 256) as u8,
        entry.reserved,
        entry.attributes,
        (entry.isr_high % 256) as u8,
        (entry.isr_high / 256) as u8,
    ]
}

/// Whether `vector` gets a gate: the exceptions do, and the vectors that a
/// line of the interrupt controllers raises.
pub open spec fn has_gate(pics: Pics, vector: int) -> bool {
    0 <= vector < EXCEPTION_VECTORS || (EXCEPTION_VECTORS <= vector < 256 && pics.line_of(
        vector as u8,
    ).is_some())
}

/// The interrupt table for the trampolines at `handlers`, one address per
/// vector, under the programming `pics` of the interrupt controllers.
pub open spec fn gates(handlers: Seq<u32>, pics: Pics) -> Seq<IdtEntry> {
    Seq::new(
        IDT_ENTRIES as nat,
        |vector: int|
            if has_gate(pics, vector) {
                gate(handlers[vector], KERNEL_CS, INTERRUPT_GATE)
            } else {
                absent()
            },
    )
}

impl IdtEntry {
    /// The eight bytes that the processor reads from memory.
    pub fn to_bytes(&self) -> (bytes: [u8; GATE_SIZE])
        ensures
            bytes@ == gate_bytes(*self),
    {
        let bytes = [
            (self.isr_low % 256) as u8,
            (self.isr_low / 256) as u8,
            (self.kernel_cs % 256) as u8,
            (self.kernel_cs / 256) as u8,
            self.reserved,
            self.attributes,
            (self.isr_high % 256) as u8,
            (self.isr_high / 256) as u8,
        ];
        assert(bytes@ =~= gate_bytes(*self));
        bytes
    }
}

/// Makes a gate: splits the handler's address into its low and high half
/// and puts selector and attributes beside them.
pub fn encode_interrupt_gate(handler_addr: u32, selector: u16, attributes: u8) -> (entry: IdtEntry)
    ensures
        entry == gate(handler_addr, selector, attributes),
{
    IdtEntry {
        isr_low: (handler_addr % 65536) as u16,
        kernel_cs: selector,
        reserved: 0,
        attributes,
        isr_high: (handler_addr / 65536) as u16,
    }
}

/// Makes vector `index` go to the handler at
/// `handler_function_addr`.
pub fn set_handler(
    idt: &mut [IdtEntry; IDT_ENTRIES],
    index: usize,
    handler_function_addr: u32,
    selector: u16,
    attributes: u8,
)
    requires
        index < IDT_ENTRIES,
    ensures
        final(idt)@ == old(idt)@.update(
            index as int,
            gate(handler_function_addr, selector, attributes),
        ),
{
    idt[index] = encode_interrupt_gate(handler_function_addr, selector, attributes);
    assert(idt@ =~= old(idt)@.update(
        index as int,
        gate(handler_function_addr, selector, attributes),
    ));
}

/// A gate sends its vector to the address it was made for.
pub proof fn lemma_handler_of_gate(handler: u32, selector: u16, attributes: u8)
    ensures
        handler_of(gate(handler, selector, attributes)) == handler,
{
}

/// A division by zero halts the processor.
pub fn handle_divide_by_zero() -> (report: Report)
    ensures
        report == (Report { exception: Exception::DivideByZero, halt: true }),
{
    Report { exception: Exception::DivideByZero, halt: true }
}

/// A debug trap halts the processor.
pub fn handle_debug() -> (report: Report)
    ensures
        report == (Report { exception: Exception::DebugTrap, halt: true }),
{
    Report { exception: Exception::DebugTrap, halt: true }
}

/// A vector without a handler of its own is reported, and the interrupted
/// code goes on.
pub fn handle_unknown(int_no: u32) -> (report: Report)
    ensures
        report == (Report { exception: Exception::Unknown { vector: int_no }, halt: false }),
{
    Report { exception: Exception::Unknown { vector: int_no }, halt: false }
}

/// The report for an exception on `vector`. `fault_address` is what the
/// fault address register held; only a page fault looks at it.
pub open spec fn reported(vector: u32, fault_address: u32) -> Report {
    if vector == DIVIDE_BY_ZERO_VECTOR {
        Report { exception: Exception::DivideByZero, halt: true }
    } else if vector == DEBUG_VECTOR {
        Report { exception: Exception::DebugTrap, halt: true }
    } else if vector == BREAKPOINT_VECTOR {
        Report { exception: Exception::Breakpoint, halt: true }
    } else if vector == DOUBLE_FAULT_VECTOR {
        Report { exception: Exception::DoubleFault, halt: true }
    } else if vector == GENERAL_PROTECTION_VECTOR {
        Report { exception: Exception::GeneralProtectionFault, halt: true }
    } else if vector == PAGE_FAULT_VECTOR {
        Report { exception: Exception::PageFault { address: fault_address }, halt: true }
    } else {
        Report { exception: Exception::Unknown { vector }, halt: false }
    }
}

/// Sends an exception vector to its handler and returns the handler's
/// report.
pub fn route_exception(vector: u32, fault_address: u32) -> (report: Report)
    ensures
        report == reported(vector, fault_address),
{
    if vector == DIVIDE_BY_ZERO_VECTOR {
        handle_divide_by_zero()
    } else if vector == DEBUG_VECTOR {
        handle_debug()
    } else if vector == BREAKPOINT_VECTOR {
        handle_breakpoint()
    } else if vector == DOUBLE_FAULT_VECTOR {
        handle_double_fault()
    } else if vector == GENERAL_PROTECTION_VECTOR {
        handle_general_protection_fault()
    } else if vector == PAGE_FAULT_VECTOR {
        handle_page_fault(fault_address)
    } else {
        handle_unknown(vector)
    }
}

/// Entry point of the exception trampolines: sends the vector that `regs`
/// names to its handler and returns the handler's report.
pub fn exception_handler(regs: &Registers, fault_address: u32) -> (report: Report)
    ensures
        report == reported(regs.interrupt_number, fault_address),
{
    route_exception(regs.interrupt_number, fault_address)
}

/// Every named exception halts the processor; no other vector does.
pub proof fn lemma_exceptions_halt(vector: u32, fault_address: u32)
    ensures
        reported(vector, fault_address).halt <==> !(reported(vector, fault_address).exception is Unknown),
{
}

/// What it takes to install the interrupt table.
pub struct IdtInstall {
    /// The table. The platform keeps its bytes at the address given to
    /// `init_idt` for as long as the processor runs.
    pub table: [IdtEntry; IDT_ENTRIES],
    /// What the table register is loaded with.
    pub register: Idtr,
    /// The interrupt controllers as the plan programs them.
    pub pic: PicState,
    /// What the platform does once the table is in place, in this order.
    pub plan: Vec<Request>,
}

/// The plan that installs the table at `base`: remap the interrupt
/// controllers, load the table register, and only then let interrupts in.
pub open spec fn install_plan(base: u32) -> Seq<Request> {
    remap_plan(PIC1_OFFSET, PIC2_OFFSET) + seq![
        Request::LoadIdt { limit: (IDT_SIZE - 1) as u16, base },
        Request::EnableInterrupts,
    ]
}

/// Builds the interrupt table for the trampolines at `handlers`, one address
/// per vector, and the plan that installs it at linear address `base`.
pub fn init_idt(handlers: &[u32; IDT_ENTRIES], base: u32) -> (install: IdtInstall)
    ensures
        install.table@ == gates(handlers@, Pics::remapped(PIC1_OFFSET, PIC2_OFFSET)),
        install.register == (Idtr { limit: (IDT_SIZE - 1) as u16, base }),
        install.pic@ == Pics::remapped(PIC1_OFFSET, PIC2_OFFSET),
        install.plan@ == install_plan(base),
{
    let (pic, mut plan) = init_pic(PIC1_OFFSET, PIC2_OFFSET);
    let mut table = [IdtEntry { isr_low: 0, kernel_cs: 0, reserved: 0, attributes: 0, isr_high: 0 };
        IDT_ENTRIES];
    let mut vector: usize = 0;
    while vector < IDT_ENTRIES
        invariant
            vector <= IDT_ENTRIES,
            pic@ == Pics::remapped(PIC1_OFFSET, PIC2_OFFSET),
            forall|i: int|
                0 <= i < vector ==> table@[i] == gates(
                    handlers@,
                    Pics::remapped(PIC1_OFFSET, PIC2_OFFSET),
                )[i],
            forall|i: int| vector <= i < IDT_ENTRIES ==> table@[i] == absent(),
        decreases IDT_ENTRIES - vector,
    {
        if vector < EXCEPTION_VECTORS as usize || pic.line(vector as u8).is_some() {
            set_handler(&mut table, vector, handlers[vector], KERNEL_CS, INTERRUPT_GATE);
        }
        vector += 1;
    }
    assert(table@ =~= gates(handlers@, Pics::remapped(PIC1_OFFSET, PIC2_OFFSET)));

    let register = Idtr { limit: (IDT_SIZE - 1) as u16, base };
    plan.push(Request::LoadIdt { limit: register.limit, base: register.base });
    plan.push(Request::EnableInterrupts);
    assert(plan@ =~= install_plan(base));
    IdtInstall { table, register, pic, plan }
}

/// In the table exactly the vectors of the exceptions and of the hardware
/// interrupts are present, each with the handler given for it; every other
/// vector is absent.
pub proof fn lemma_present_gates(handlers: Seq<u32>, pics: Pics, vector: int)
    requires
        0 <= vector < IDT_ENTRIES,
    ensures
        is_present(gates(handlers, pics)[vector]) <==> has_gate(pics, vector),
        has_gate(pics, vector) ==> handler_of(gates(handlers, pics)[vector]) == handlers[vector],
        !has_gate(pics, vector) ==> gates(handlers, pics)[vector] == absent(),
{
}

/// Interrupts are let in last: the table register is loaded before, and
/// nothing in the plan lets them in earlier.
pub proof fn lemma_enable_comes_last(base: u32)
    ensures
        install_plan(base).last() == Request::EnableInterrupts,
        install_plan(base)[install_plan(base).len() - 2] is LoadIdt,
        forall|i: int|
            0 <= i < install_plan(base).len() - 1 ==> install_plan(base)[i]
                != Request::EnableInterrupts,
{
}

} // verus!
