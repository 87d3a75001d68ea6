//! PS/2 mouse: reassembly of the three-byte movement packets, the pointer
//! position they add up to, and the cursor drawn on the text display.

use vstd::prelude::*;
use crate::interrupts::pic::{eoi_plan, send_eoi, unmask_plan, PicState, MOUSE_LINE};
use crate::platform::Request;
use crate::vga::terminal::{entry, Screen, Terminal, VGA_HEIGHT, VGA_WIDTH};

verus! {

/// Bit of the first packet byte that is always set; a byte without it cannot
/// start a packet.
pub const PACKET_MARKER: u8 = 0x08;

/// Bits of the first packet byte that hold the left, right and middle button.
pub const BUTTON_MASK: u8 = 0x07;

pub const LEFT_BUTTON: u8 = 0x01;

pub const RIGHT_BUTTON: u8 = 0x02;

/// Bit of the first packet byte that extends the sign of the x movement.
pub const X_SIGN: u8 = 0x10;

/// Bit of the first packet byte that extends the sign of the y movement.
pub const Y_SIGN: u8 = 0x20;

/// Glyph of the cursor while the left button is down: `#`.
pub const CURSOR_LEFT: u8 = 0x23;

/// Glyph of the cursor while only the right button is down: `@`.
pub const CURSOR_RIGHT: u8 = 0x40;

/// Glyph of the cursor otherwise: `X`.
pub const CURSOR_IDLE: u8 = 0x58;

/// Attribute of the cursor cell: white on red.
pub const CURSOR_COLOR: u8 = 0x4F;

/// What the mouse driver knows between two bytes.
pub struct Pointer {
    /// Column of the pointer.
    pub x: int,
    /// Row of the pointer.
    pub y: int,
    /// Buttons held when the last packet came: left, right, middle from bit 0.
    pub buttons: u8,
    /// The bytes of the packet that is being received; at most two.
    pub pending: Seq<u8>,
    /// The cell that the cursor last covered, as it was before.
    pub saved_cell: u16,
    /// Column of that cell.
    pub saved_x: int,
    /// Row of that cell.
    pub saved_y: int,
}

/// The movement that a packet reports along one axis: the movement byte read
/// as a signed byte, and 256 less where the sign bit of the first byte is set
/// although the byte reads positive.
pub open spec fn movement(raw: u8, sign: bool) -> int {
    let signed = if raw >= 128 {
        raw - 256
    } else {
        raw as int
    };
    if sign && signed > 0 {
        signed - 256
    } else {
        signed
    }
}

/// `value` brought into `0 ..= size - 1`.
pub open spec fn clamped(value: int, size: int) -> int {
    if value < 0 {
        0
    } else if value > size - 1 {
        size - 1
    } else {
        value
    }
}

/// The glyph that shows the pointer for the given buttons.
pub open spec fn cursor_glyph(buttons: u8) -> u8 {
    if buttons & LEFT_BUTTON != 0 {
        CURSOR_LEFT
    } else if buttons & RIGHT_BUTTON != 0 {
        CURSOR_RIGHT
    } else {
        CURSOR_IDLE
    }
}

impl Pointer {
    /// What holds of the pointer of every mouse state: pointer and saved cell
    /// are inside the grid, and a packet in progress has at most two bytes.
    pub open spec fn well_formed(self) -> bool {
        &&& 0 <= self.x < VGA_WIDTH
        &&& 0 <= self.y < VGA_HEIGHT
        &&& self.pending.len() <= 2
        &&& 0 <= self.saved_x < VGA_WIDTH
        &&& 0 <= self.saved_y < VGA_HEIGHT
    }

    /// The pointer before anything came from the mouse: at the top left, no
    /// button held, no packet in progress, the top left cell saved as empty.
    pub open spec fn initial() -> Pointer {
        Pointer {
            x: 0,
            y: 0,
            buttons: 0,
            pending: Seq::empty(),
            saved_cell: 0,
            saved_x: 0,
            saved_y: 0,
        }
    }

    /// The pointer in the middle of the grid, with no button held and no
    /// packet in progress. The saved cell stays.
    pub open spec fn centered(self) -> Pointer {
        Pointer {
            x: VGA_WIDTH as int / 2,
            y: VGA_HEIGHT as int / 2,
            buttons: 0,
            pending: Seq::empty(),
            ..self
        }
    }

    /// The pointer after a whole packet: the buttons are those of the packet;
    /// the position moves right by the x movement and up by the y movement and
    /// stays inside the grid.
    pub open spec fn moved(self, packet: Seq<u8>) -> Pointer {
        Pointer {
            buttons: packet[0] & BUTTON_MASK,
            x: clamped(self.x + movement(packet[1], packet[0] & X_SIGN != 0), VGA_WIDTH as int),
            y: clamped(self.y - movement(packet[2], packet[0] & Y_SIGN != 0), VGA_HEIGHT as int),
            ..self
        }
    }

    /// The screen with the cell under the old cursor as it was before the
    /// cursor covered it.
    pub open spec fn restored(self, screen: Screen) -> Screen {
        screen.with_entry(self.saved_cell, self.saved_x, self.saved_y)
    }

    /// Pointer and screen after the cursor is drawn: the cell under the old
    /// cursor is put back, the cell at the pointer is saved, and the cursor
    /// glyph takes its place.
    pub open spec fn drawn(self, screen: Screen) -> (Pointer, Screen) {
        let restored = self.restored(screen);
        (
            Pointer {
                saved_cell: restored.cells[Screen::index(self.x, self.y)],
                saved_x: self.x,
                saved_y: self.y,
                ..self
            },
            restored.with_entry(entry(cursor_glyph(self.buttons), CURSOR_COLOR), self.x, self.y),
        )
    }

    /// Pointer and screen after one byte from the mouse. A byte without the
    /// marker bit cannot start a packet and is ignored. The first and second
    /// byte of a packet are kept. The third completes the packet: the pointer
    /// moves and the cursor is drawn.
    pub open spec fn fed(self, screen: Screen, data: u8) -> (Pointer, Screen) {
        if self.pending.len() == 0 && data & PACKET_MARKER == 0 {
            (self, screen)
        } else if self.pending.len() < 2 {
            (Pointer { pending: self.pending.push(data), ..self }, screen)
        } else {
            (Pointer { pending: Seq::empty(), ..self }).moved(self.pending.push(data)).drawn(screen)
        }
    }
}

/// State of the mouse driver.
pub struct MouseState {
    x: i32,
    y: i32,
    buttons: u8,
    packed_data: [u8; 3],
    packed_index: usize,
    old_char: u16,
    old_x: usize,
    old_y: usize,
}

impl View for MouseState {
    type V = Pointer;

    closed spec fn view(&self) -> Pointer {
        Pointer {
            x: self.x as int,
            y: self.y as int,
            buttons: self.buttons,
            pending: self.packed_data@.take(self.packed_index as int),
            saved_cell: self.old_char,
            saved_x: self.old_x as int,
            saved_y: self.old_y as int,
        }
    }
}

impl MouseState {
    #[verifier::type_invariant]
    spec fn inv(self) -> bool {
        &&& 0 <= self.x < VGA_WIDTH
        &&& 0 <= self.y < VGA_HEIGHT
        &&& self.packed_index < 3
        &&& self.old_x < VGA_WIDTH
        &&& self.old_y < VGA_HEIGHT
    }

    /// A fresh state.
    pub fn new() -> (state: MouseState)
        ensures
            state@ == Pointer::initial(),
    {
        let state = MouseState {
            x: 0,
            y: 0,
            buttons: 0,
            packed_data: [0; 3],
            packed_index: 0,
            old_char: 0,
            old_x: 0,
            old_y: 0,
        };
        assert(state@.pending =~= Seq::<u8>::empty());
        state
    }

    /// Column of the pointer.
    pub fn x(&self) -> (x: i32)
        ensures
            x == self@.x,
            self@.well_formed(),
    {
        proof {
            use_type_invariant(self);
        }
        self.x
    }

    /// Row of the pointer.
    pub fn y(&self) -> (y: i32)
        ensures
            y == self@.y,
            0 <= y < VGA_HEIGHT,
    {
        proof {
            use_type_invariant(self);
        }
        self.y
    }

    /// Buttons held when the last packet came.
    pub fn buttons(&self) -> (buttons: u8)
        ensures
            buttons == self@.buttons,
    {
        self.buttons
    }

    /// Number of bytes received of the packet in progress: 0, 1 or 2.
    pub fn phase(&self) -> (phase: usize)
        ensures
            phase == self@.pending.len(),
            phase <= 2,
    {
        proof {
            use_type_invariant(self);
        }
        self.packed_index
    }

    /// Puts the pointer in the middle of the grid, with no button held and no
    /// packet in progress. The saved cell stays.
    pub fn reset(&mut self)
        ensures
            final(self)@ == old(self)@.centered(),
    {
        proof {
            use_type_invariant(&*self);
        }
        self.x = (VGA_WIDTH / 2) as i32;
        self.y = (VGA_HEIGHT / 2) as i32;
        self.buttons = 0;
        self.packed_index = 0;
        assert(self@.pending =~= Seq::<u8>::empty());
    }
}

/// Takes one byte from the mouse. Three bytes make a packet; when the third
/// arrives the pointer moves and the cursor is drawn on `terminal`.
pub fn handle_mouse_data(state: &mut MouseState, data: u8, terminal: &mut Terminal)
    ensures
        (final(state)@, final(terminal)@) == old(state)@.fed(old(terminal)@, data),
{
    proof {
        use_type_invariant(&*state);
    }
    let ghost before = state@;
    if state.packed_index == 0 {
        if data & PACKET_MARKER != 0 {
            state.packed_data[0] = data;
            state.packed_index = 1;
            assert(state@.pending =~= before.pending.push(data));
        }
    } else if state.packed_index == 1 {
        state.packed_data[1] = data;
        state.packed_index = 2;
        assert(state@.pending =~= before.pending.push(data));
    } else {
        state.packed_data[2] = data;
        state.packed_index = 0;
        assert(state.packed_data@ =~= before.pending.push(data));
        assert(state@ == (Pointer { pending: Seq::empty(), ..before })) by {
            assert(state@.pending =~= Seq::<u8>::empty());
        }
        process_mouse_packet(state, terminal);
    }
}

/// Applies the packet that was just completed: buttons, movement, and the
/// cursor on `terminal`.
fn process_mouse_packet(state: &mut MouseState, terminal: &mut Terminal)
    requires
        old(state).packed_index == 0,
    ensures
        (final(state)@, final(terminal)@) == old(state)@.moved(old(state).packed_data@).drawn(
            old(terminal)@,
        ),
{
    proof {
        use_type_invariant(&*state);
    }
    let packet0 = state.packed_data[0];
    let packet1 = state.packed_data[1];
    let packet2 = state.packed_data[2];

    state.buttons = packet0 & BUTTON_MASK;

    let mut x_movement: i32 = if packet1 >= 128 {
        packet1 as i32 - 256
    } else {
        packet1 as i32
    };
    let mut y_movement: i32 = if packet2 >= 128 {
        packet2 as i32 - 256
    } else {
        packet2 as i32
    };
    if packet0 & X_SIGN != 0 && x_movement > 0 {
        x_movement -= 256;
    }
    if packet0 & Y_SIGN != 0 && y_movement > 0 {
        y_movement -= 256;
    }
    y_movement = -y_movement;

    let x = state.x + x_movement;
    let y = state.y + y_movement;
    state.x = if x < 0 {
        0
    } else if x > (VGA_WIDTH - 1) as i32 {
        (VGA_WIDTH - 1) as i32
    } else {
        x
    };
    state.y = if y < 0 {
        0
    } else if y > (VGA_HEIGHT - 1) as i32 {
        (VGA_HEIGHT - 1) as i32
    } else {
        y
    };
    assert(state@ == old(state)@.moved(old(state).packed_data@));

    draw_mouse_cursor(state, terminal);
}

/// Moves the cursor on `terminal` to the pointer: puts back the cell that the
/// cursor covered, saves the cell at the pointer, and shows the cursor there.
fn draw_mouse_cursor(state: &mut MouseState, terminal: &mut Terminal)
    ensures
        (final(state)@, final(terminal)@) == old(state)@.drawn(old(terminal)@),
{
    proof {
        use_type_invariant(&*state);
    }
    let x = state.x as usize;
    let y = state.y as usize;

    terminal.set_entry_at(state.old_char, state.old_x, state.old_y);

    state.old_char = terminal.entry_at(x, y);
    state.old_x = x;
    state.old_y = y;

    let cursor_char = if state.buttons & LEFT_BUTTON != 0 {
        CURSOR_LEFT
    } else if state.buttons & RIGHT_BUTTON != 0 {
        CURSOR_RIGHT
    } else {
        CURSOR_IDLE
    };

    terminal.put_entry_at(cursor_char, CURSOR_COLOR, x, y);
}

/// Lets the mouse's interrupt through. Returns the writes that tell the
/// interrupt controllers.
pub fn setup_mouse_interrupt(pic: &mut PicState) -> (plan: Vec<Request>)
    ensures
        final(pic)@ == old(pic)@.unmasked(MOUSE_LINE),
        plan@ == unmask_plan(final(pic)@, MOUSE_LINE),
{
    pic.unmask(MOUSE_LINE)
}

/// Serves the mouse interrupt: `data` is the byte the mouse had ready.
/// Returns the writes that end the interrupt.
pub fn handle_irq12(state: &mut MouseState, terminal: &mut Terminal, data: u8) -> (eoi: Vec<Request>)
    ensures
        (final(state)@, final(terminal)@) == old(state)@.fed(old(terminal)@, data),
        eoi@ == eoi_plan(MOUSE_LINE),
{
    handle_mouse_data(state, data, terminal);
    send_eoi(MOUSE_LINE)
}

/// A byte without the marker bit, arriving when no packet is in progress,
/// changes nothing: no packet is started, and the byte is part of none.
pub proof fn lemma_unmarked_byte_starts_no_packet(pointer: Pointer, screen: Screen, data: u8)
    requires
        pointer.pending.len() == 0,
        data & PACKET_MARKER == 0,
    ensures
        pointer.fed(screen, data) == (pointer, screen),
{
}

/// Whatever the mouse sends, the pointer stays inside the grid and a packet in
/// progress never has more than two bytes.
pub proof fn lemma_fed_well_formed(pointer: Pointer, screen: Screen, data: u8)
    requires
        pointer.well_formed(),
    ensures
        pointer.fed(screen, data).0.well_formed(),
        Pointer::initial().well_formed(),
        pointer.centered().well_formed(),
{
}

} // verus!
