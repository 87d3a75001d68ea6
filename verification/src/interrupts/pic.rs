//! The two cascaded 8259 interrupt controllers: remapping, masks, end of
//! interrupt, and the dispatch of hardware interrupts to the device drivers.

use vstd::prelude::*;
use crate::interrupts::handlers::irq::{handle_keyboard, handle_timer, report_due, ticked};
use crate::platform::Request;
use crate::ps2::controller::PS2_DATA;
use crate::ps2::keyboard::{decoded, enqueued, modifiers_after, KeyBuffer, Modifiers};
use crate::ps2::mouse::{handle_irq12, MouseState};
use crate::vga::terminal::Terminal;

verus! {

/// Command port of the master controller.
pub const PIC1_CMD: u16 = 0x20;

/// Data port of the master controller.
pub const PIC1_DATA: u16 = 0x21;

/// Command port of the slave controller.
pub const PIC2_CMD: u16 = 0xA0;

/// Data port of the slave controller.
pub const PIC2_DATA: u16 = 0xA1;

/// First initialisation word: start the sequence, a fourth word follows.
pub const ICW1_INIT: u8 = 0x11;

/// Third initialisation word of the master: a slave sits on line 2.
pub const ICW3_MASTER: u8 = 0x04;

/// Third initialisation word of the slave: its cascade identity, 2.
pub const ICW3_SLAVE: u8 = 0x02;

/// Fourth initialisation word: 8086 mode.
pub const ICW4_8086: u8 = 0x01;

/// The end-of-interrupt command.
pub const PIC_EOI: u8 = 0x20;

/// Mask of the master after a remap: only the keyboard line is open.
pub const MASTER_MASK: u8 = 0xFD;

/// Mask of the slave after a remap: every line is closed.
pub const SLAVE_MASK: u8 = 0xFF;

/// Bit of the master's mask that closes the line the slave sits on.
pub const CASCADE_BIT: u8 = 0x04;

/// Interrupt lines of one controller.
pub const LINES: u8 = 8;

/// Vectors below this one belong to the processor's exceptions.
pub const EXCEPTION_VECTORS: u8 = 32;

/// Interrupt line of the timer.
pub const TIMER_LINE: u8 = 0;

/// Interrupt line of the keyboard.
pub const KEYBOARD_LINE: u8 = 1;

/// Interrupt line of the mouse.
pub const MOUSE_LINE: u8 = 12;

/// How the two controllers are programmed.
pub struct Pics {
    /// Vector of the master's line 0.
    pub master_offset: u8,
    /// Vector of the slave's line 0.
    pub slave_offset: u8,
    /// Mask register of the master: a set bit closes its line.
    pub master_mask: u8,
    /// Mask register of the slave.
    pub slave_mask: u8,
}

/// Offsets a remap accepts: the eight vectors of each controller lie above the
/// exception vectors, within a byte, and apart from the other controller's.
pub open spec fn valid_offsets(master_offset: u8, slave_offset: u8) -> bool {
    &&& master_offset >= EXCEPTION_VECTORS
    &&& slave_offset >= EXCEPTION_VECTORS
    &&& master_offset + LINES <= 256
    &&& slave_offset + LINES <= 256
    &&& (master_offset + LINES <= slave_offset || slave_offset + LINES <= master_offset)
}

/// The mask `mask` with the bit of `line` cleared.
pub open spec fn opened(mask: u8, line: u8) -> u8 {
    mask & !(1u8 << line)
}

/// Whether `mask` lets `line` through.
pub open spec fn is_open(mask: u8, line: u8) -> bool {
    mask & (1u8 << line) == 0
}

impl Pics {
    /// The line that raises `vector`: lines 0 to 7 are the master's, 8 to 15
    /// the slave's. `None` for a vector that no line raises.
    pub open spec fn line_of(self, vector: u8) -> Option<u8> {
        if self.master_offset <= vector < self.master_offset + LINES {
            Some((vector - self.master_offset) as u8)
        } else if self.slave_offset <= vector < self.slave_offset + LINES {
            Some((LINES + vector - self.slave_offset) as u8)
        } else {
            None
        }
    }

    /// The programming is sound: the offsets are valid, and the master lets
    /// the slave through whenever the slave lets any line through.
    pub open spec fn well_formed(self) -> bool {
        &&& valid_offsets(self.master_offset, self.slave_offset)
        &&& self.slave_mask != 0xFF ==> self.master_mask & CASCADE_BIT == 0
    }

    /// The programming right after a remap.
    pub open spec fn remapped(master_offset: u8, slave_offset: u8) -> Pics {
        Pics { master_offset, slave_offset, master_mask: MASTER_MASK, slave_mask: SLAVE_MASK }
    }

    /// The programming after `irq` is let through. For a line of the slave the
    /// master's cascade line is opened too.
    pub open spec fn unmasked(self, irq: u8) -> Pics {
        if irq < LINES {
            Pics { master_mask: opened(self.master_mask, irq), ..self }
        } else {
            Pics {
                slave_mask: opened(self.slave_mask, (irq - LINES) as u8),
                master_mask: self.master_mask & !CASCADE_BIT,
                ..self
            }
        }
    }
}

/// The writes that remap the controllers: the four initialisation words, to
/// master and slave in turn, then all lines open, then the masks.
pub open spec fn remap_plan(master_offset: u8, slave_offset: u8) -> Seq<Request> {
    seq![
        Request::Write { port: PIC1_CMD, value: ICW1_INIT },
        Request::Write { port: PIC2_CMD, value: ICW1_INIT },
        Request::Write { port: PIC1_DATA, value: master_offset },
        Request::Write { port: PIC2_DATA, value: slave_offset },
        Request::Write { port: PIC1_DATA, value: ICW3_MASTER },
        Request::Write { port: PIC2_DATA, value: ICW3_SLAVE },
        Request::Write { port: PIC1_DATA, value: ICW4_8086 },
        Request::Write { port: PIC2_DATA, value: ICW4_8086 },
        Request::Write { port: PIC1_DATA, value: 0x00 },
        Request::Write { port: PIC2_DATA, value: 0x00 },
        Request::Write { port: PIC1_DATA, value: MASTER_MASK },
        Request::Write { port: PIC2_DATA, value: SLAVE_MASK },
    ]
}

/// The writes that end the interrupt of line `irq`: for a line of the slave
/// the command goes to the slave first; it always goes to the master.
pub open spec fn eoi_plan(irq: u8) -> Seq<Request> {
    if irq >= LINES {
        seq![
            Request::Write { port: PIC2_CMD, value: PIC_EOI },
            Request::Write { port: PIC1_CMD, value: PIC_EOI },
        ]
    } else {
        seq![Request::Write { port: PIC1_CMD, value: PIC_EOI }]
    }
}

/// The writes that let `irq` through, given the programming after it.
pub open spec fn unmask_plan(after: Pics, irq: u8) -> Seq<Request> {
    if irq < LINES {
        seq![Request::Write { port: PIC1_DATA, value: after.master_mask }]
    } else {
        seq![
            Request::Write { port: PIC2_DATA, value: after.slave_mask },
            Request::Write { port: PIC1_DATA, value: after.master_mask },
        ]
    }
}

/// Facts about masks that the invariant of `PicState` rests on.
proof fn lemma_masks(mask: u8, line: u8)
    by (bit_vector)
    requires
        line < 8,
    ensures
        (mask & !(1u8 << line)) & (1u8 << line) == 0,
        (mask & !0x04u8) & 0x04u8 == 0,
        mask & 0x04u8 == 0 ==> (mask & !(1u8 << line)) & 0x04u8 == 0,
{
}

/// The two controllers as this library programmed them.
pub struct PicState {
    master_offset: u8,
    slave_offset: u8,
    master_mask: u8,
    slave_mask: u8,
}

impl View for PicState {
    type V = Pics;

    closed spec fn view(&self) -> Pics {
        Pics {
            master_offset: self.master_offset,
            slave_offset: self.slave_offset,
            master_mask: self.master_mask,
            slave_mask: self.slave_mask,
        }
    }
}

impl PicState {
    #[verifier::type_invariant]
    spec fn inv(self) -> bool {
        self@.well_formed()
    }

    /// Vector of the master's line 0.
    pub fn master_offset(&self) -> (offset: u8)
        ensures
            offset == self@.master_offset,
            self@.well_formed(),
    {
        proof {
            use_type_invariant(self);
        }
        self.master_offset
    }

    /// Vector of the slave's line 0.
    pub fn slave_offset(&self) -> (offset: u8)
        ensures
            offset == self@.slave_offset,
            self@.well_formed(),
    {
        proof {
            use_type_invariant(self);
        }
        self.slave_offset
    }

    /// Mask register of the master.
    pub fn master_mask(&self) -> (mask: u8)
        ensures
            mask == self@.master_mask,
    {
        self.master_mask
    }

    /// Mask register of the slave.
    pub fn slave_mask(&self) -> (mask: u8)
        ensures
            mask == self@.slave_mask,
    {
        self.slave_mask
    }

    /// The line that raises `vector`, if one does.
    pub fn line(&self, vector: u8) -> (line: Option<u8>)
        ensures
            line == self@.line_of(vector),
            line matches Some(irq) ==> irq < 2 * LINES,
    {
        proof {
            use_type_invariant(self);
        }
        if vector >= self.master_offset && vector - self.master_offset < LINES {
            Some(vector - self.master_offset)
        } else if vector >= self.slave_offset && vector - self.slave_offset < LINES {
            Some(LINES + (vector - self.slave_offset))
        } else {
            None
        }
    }

    /// Lets line `irq` through and returns the writes that tell the
    /// controllers. For a line of the slave the master's cascade line is
    /// opened too, so that the interrupt can arrive.
    pub fn unmask(&mut self, irq: u8) -> (plan: Vec<Request>)
        requires
            irq < 2 * LINES,
        ensures
            final(self)@ == old(self)@.unmasked(irq),
            plan@ == unmask_plan(final(self)@, irq),
    {
        proof {
            use_type_invariant(&*self);
        }
        if irq < LINES {
            proof {
                lemma_masks(self.master_mask, irq);
            }
            self.master_mask = self.master_mask & !(1u8 << irq);
            vec![Request::Write { port: PIC1_DATA, value: self.master_mask }]
        } else {
            proof {
                lemma_masks(self.master_mask, 0);
            }
            self.master_mask = self.master_mask & !CASCADE_BIT;
            self.slave_mask = self.slave_mask & !(1u8 << (irq - LINES));
            vec![
                Request::Write { port: PIC2_DATA, value: self.slave_mask },
                Request::Write { port: PIC1_DATA, value: self.master_mask },
            ]
        }
    }
}

/// Remaps the controllers so that the master's lines raise the vectors from
/// `offset1` and the slave's those from `offset2`. Returns the programming and
/// the writes that put it in place.
pub fn init_pic(offset1: u8, offset2: u8) -> (result: (PicState, Vec<Request>))
    requires
        valid_offsets(offset1, offset2),
    ensures
        result.0@ == Pics::remapped(offset1, offset2),
        result.1@ == remap_plan(offset1, offset2),
{
    let plan = vec![
        Request::Write { port: PIC1_CMD, value: ICW1_INIT },
        Request::Write { port: PIC2_CMD, value: ICW1_INIT },
        Request::Write { port: PIC1_DATA, value: offset1 },
        Request::Write { port: PIC2_DATA, value: offset2 },
        Request::Write { port: PIC1_DATA, value: ICW3_MASTER },
        Request::Write { port: PIC2_DATA, value: ICW3_SLAVE },
        Request::Write { port: PIC1_DATA, value: ICW4_8086 },
        Request::Write { port: PIC2_DATA, value: ICW4_8086 },
        Request::Write { port: PIC1_DATA, value: 0x00 },
        Request::Write { port: PIC2_DATA, value: 0x00 },
        Request::Write { port: PIC1_DATA, value: MASTER_MASK },
        Request::Write { port: PIC2_DATA, value: SLAVE_MASK },
    ];
    let state = PicState {
        master_offset: offset1,
        slave_offset: offset2,
        master_mask: MASTER_MASK,
        slave_mask: SLAVE_MASK,
    };
    (state, plan)
}

/// The writes that end the interrupt of line `irq`.
pub fn send_eoi(irq: u8) -> (plan: Vec<Request>)
    ensures
        plan@ == eoi_plan(irq),
{
    let mut plan = Vec::new();
    if irq >= LINES {
        plan.push(Request::Write { port: PIC2_CMD, value: PIC_EOI });
    }
    plan.push(Request::Write { port: PIC1_CMD, value: PIC_EOI });
    plan
}

/// After a remap every line raises a vector of its own, none of them an
/// exception vector: line `irq` of the master raises `master_offset + irq`,
/// line `irq` of the slave `slave_offset + irq`.
pub proof fn lemma_lines_apart(master_offset: u8, slave_offset: u8, irq: u8)
    requires
        valid_offsets(master_offset, slave_offset),
        irq < LINES,
    ensures
        Pics::remapped(master_offset, slave_offset).line_of((master_offset + irq) as u8) == Some(
            irq,
        ),
        Pics::remapped(master_offset, slave_offset).line_of((slave_offset + irq) as u8) == Some(
            (LINES + irq) as u8,
        ),
        master_offset + irq >= EXCEPTION_VECTORS,
        slave_offset + irq >= EXCEPTION_VECTORS,
        forall|vector: u8|
            vector < EXCEPTION_VECTORS ==> Pics::remapped(master_offset, slave_offset).line_of(
                vector,
            ).is_none(),
{
}

/// Letting a line through opens it, and a line of the slave can then reach
/// the processor: the master's cascade line is open.
pub proof fn lemma_unmasked_open(pics: Pics, irq: u8)
    requires
        irq < 2 * LINES,
    ensures
        irq < LINES ==> is_open(pics.unmasked(irq).master_mask, irq),
        irq >= LINES ==> is_open(pics.unmasked(irq).slave_mask, (irq - LINES) as u8),
        irq >= LINES ==> pics.unmasked(irq).master_mask & CASCADE_BIT == 0,
        pics.well_formed() ==> pics.unmasked(irq).well_formed(),
{
    if irq < LINES {
        lemma_masks(pics.master_mask, irq);
    } else {
        lemma_masks(pics.slave_mask, (irq - LINES) as u8);
        lemma_masks(pics.master_mask, 0);
    }
}

/// Where a hardware interrupt goes.
#[derive(Clone, Copy, Debug, PartialEq, Eq, Structural)]
pub enum Route {
    /// The timer ticked.
    Timer,
    /// The keyboard has a byte.
    Keyboard,
    /// The mouse has a byte.
    Mouse,
    /// No driver serves the vector.
    Unhandled,
}

/// The route of `vector` under the programming `pics`: by the line that raises
/// it.
pub open spec fn route_of(pics: Pics, vector: u8) -> Route {
    match pics.line_of(vector) {
        Some(line) => if line == TIMER_LINE {
            Route::Timer
        } else if line == KEYBOARD_LINE {
            Route::Keyboard
        } else if line == MOUSE_LINE {
            Route::Mouse
        } else {
            Route::Unhandled
        },
        None => Route::Unhandled,
    }
}

/// The line whose interrupt is ended after `vector` was served: the line that
/// raises it, and line 0 for a vector that no line raises, so that the master
/// alone is told.
pub open spec fn ended_line(pics: Pics, vector: u8) -> u8 {
    match pics.line_of(vector) {
        Some(line) => line,
        None => 0,
    }
}

impl Route {
    /// The port that holds the byte a driver on this route needs, if it needs
    /// one.
    pub open spec fn spec_data_port(self) -> Option<u16> {
        match self {
            Route::Keyboard | Route::Mouse => Some(PS2_DATA),
            _ => None,
        }
    }

    /// The port that holds the byte a driver on this route needs, if it needs
    /// one. The platform reads it before it calls `handle_interrupt`.
    #[verifier::when_used_as_spec(spec_data_port)]
    pub fn data_port(self) -> (port: Option<u16>)
        ensures
            port == self.spec_data_port(),
    {
        match self {
            Route::Keyboard | Route::Mouse => Some(PS2_DATA),
            _ => None,
        }
    }
}

/// Decides where `vector` goes.
pub fn route(pic: &PicState, vector: u8) -> (result: Route)
    ensures
        result == route_of(pic@, vector),
{
    match pic.line(vector) {
        Some(line) => if line == TIMER_LINE {
            Route::Timer
        } else if line == KEYBOARD_LINE {
            Route::Keyboard
        } else if line == MOUSE_LINE {
            Route::Mouse
        } else {
            Route::Unhandled
        },
        None => Route::Unhandled,
    }
}

/// Everything the interrupt handlers work on.
pub struct Devices {
    /// The interrupt controllers.
    pub pic: PicState,
    /// Timer ticks since start.
    pub ticks: u32,
    /// Modifier keys of the keyboard.
    pub modifiers: Modifiers,
    /// Characters typed and not yet read.
    pub keys: KeyBuffer,
    /// The mouse.
    pub mouse: MouseState,
    /// The display.
    pub terminal: Terminal,
}

/// What serving a hardware interrupt came to.
pub struct Served {
    /// The route the vector took.
    pub route: Route,
    /// The tick count, where the timer ticked and the count is due for a
    /// report.
    pub tick_report: Option<u32>,
    /// The character that the keyboard's byte produced, where it produced
    /// one.
    pub key: Option<char>,
    /// The writes that end the interrupt. The platform carries them out
    /// before it returns from the interrupt, without letting another
    /// interrupt in.
    pub eoi: Vec<Request>,
}

/// Whether `after` and `served` are what serving the vector makes of
/// `before`, where `data` is the byte read from the route's data port. The
/// driver on the vector's route has done its work: the timer has counted a
/// tick, the keyboard has decoded its byte and queued the character, the mouse
/// has taken its byte. Nothing else has changed. The writes end the
/// interrupt of the vector's line.
pub open spec fn serves(before: Devices, after: Devices, vector: u8, data: u8, served: Served) -> bool {
    let route = route_of(before.pic@, vector);
    &&& served.route == route
    &&& served.eoi@ == eoi_plan(ended_line(before.pic@, vector))
    &&& served.tick_report == if route == Route::Timer {
        report_due(ticked(before.ticks))
    } else {
        None
    }
    &&& served.key == if route == Route::Keyboard {
        decoded(before.modifiers, data)
    } else {
        None
    }
    &&& after.pic@ == before.pic@
    &&& after.ticks == if route == Route::Timer {
        ticked(before.ticks)
    } else {
        before.ticks
    }
    &&& after.modifiers == if route == Route::Keyboard {
        modifiers_after(before.modifiers, data)
    } else {
        before.modifiers
    }
    &&& after.keys@ == match served.key {
        Some(c) => enqueued(before.keys@, c),
        None => before.keys@,
    }
    &&& (after.mouse@, after.terminal@) == if route == Route::Mouse {
        before.mouse@.fed(before.terminal@, data)
    } else {
        (before.mouse@, before.terminal@)
    }
}

/// Whether nothing has changed from `before` to `after`.
pub open spec fn untouched(before: Devices, after: Devices) -> bool {
    &&& after.pic@ == before.pic@
    &&& after.ticks == before.ticks
    &&& after.modifiers == before.modifiers
    &&& after.keys@ == before.keys@
    &&& after.mouse@ == before.mouse@
    &&& after.terminal@ == before.terminal@
}

/// Serves the hardware interrupt `interrupt_number`. `data` is the byte read
/// from the route's data port, for a route that has one. The driver on the
/// route does its work, nothing else changes, and the interrupt of the line
/// is ended.
pub fn handle_interrupt(devices: &mut Devices, interrupt_number: u8, data: u8) -> (served: Served)
    ensures
        serves(*old(devices), *final(devices), interrupt_number, data, served),
{
    let line = devices.pic.line(interrupt_number);
    let route = route(&devices.pic, interrupt_number);
    let mut tick_report = None;
    let mut key = None;
    match route {
        Route::Timer => {
            tick_report = handle_timer(&mut devices.ticks);
        },
        Route::Keyboard => {
            key = handle_keyboard(&mut devices.modifiers, &mut devices.keys, data);
        },
        Route::Mouse => {
            let eoi = handle_irq12(&mut devices.mouse, &mut devices.terminal, data);
            return Served { route, tick_report, key, eoi };
        },
        Route::Unhandled => {},
    }
    let irq = match line {
        Some(irq) => irq,
        None => 0,
    };
    Served { route, tick_report, key, eoi: send_eoi(irq) }
}

} // verus!
