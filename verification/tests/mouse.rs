use kernel_core::interrupts::pic::init_pic;
use kernel_core::platform::Request;
use kernel_core::ps2::mouse::{handle_irq12, handle_mouse_data, setup_mouse_interrupt, MouseState};
use kernel_core::vga::terminal::Terminal;

fn centred() -> MouseState {
    let mut state = MouseState::new();
    state.reset();
    state
}

fn feed(state: &mut MouseState, terminal: &mut Terminal, bytes: &[u8]) {
    for byte in bytes {
        handle_mouse_data(state, *byte, terminal);
    }
}

#[test]
fn new_mouse_state_is_at_origin() {
    let state = MouseState::new();
    assert_eq!(state.x(), 0);
    assert_eq!(state.y(), 0);
    assert_eq!(state.buttons(), 0);
    assert_eq!(state.phase(), 0);
}

#[test]
fn reset_centres_the_pointer() {
    let state = centred();
    assert_eq!(state.x(), 40);
    assert_eq!(state.y(), 12);
    assert_eq!(state.buttons(), 0);
    assert_eq!(state.phase(), 0);
}

#[test]
fn packet_moves_one_to_the_right() {
    let mut state = centred();
    let mut terminal = Terminal::new();
    feed(&mut state, &mut terminal, &[0x08, 0x01, 0x00]);
    assert_eq!(state.x(), 41);
    assert_eq!(state.y(), 12);
    assert_eq!(state.buttons(), 0);
    assert_eq!(state.phase(), 0);
}

#[test]
fn byte_without_marker_is_ignored() {
    let mut state = centred();
    let mut terminal = Terminal::new();
    handle_mouse_data(&mut state, 0x00, &mut terminal);
    assert_eq!(state.phase(), 0);
    handle_mouse_data(&mut state, 0xF7, &mut terminal);
    assert_eq!(state.phase(), 0);
    assert_eq!(state.x(), 40);
    assert_eq!(state.y(), 12);
    // The bytes that follow form a packet of their own.
    feed(&mut state, &mut terminal, &[0x08, 0x02, 0x00]);
    assert_eq!(state.x(), 42);
    assert_eq!(state.phase(), 0);
}

#[test]
fn phase_advances_byte_by_byte() {
    let mut state = centred();
    let mut terminal = Terminal::new();
    handle_mouse_data(&mut state, 0x08, &mut terminal);
    assert_eq!(state.phase(), 1);
    handle_mouse_data(&mut state, 0x00, &mut terminal);
    assert_eq!(state.phase(), 2);
    assert_eq!(state.x(), 40);
    handle_mouse_data(&mut state, 0x00, &mut terminal);
    assert_eq!(state.phase(), 0);
}

#[test]
fn second_and_third_byte_need_no_marker() {
    let mut state = centred();
    let mut terminal = Terminal::new();
    feed(&mut state, &mut terminal, &[0x08, 0x03, 0x05]);
    assert_eq!(state.x(), 43);
    assert_eq!(state.y(), 7);
}

#[test]
fn up_on_the_device_is_up_on_the_screen() {
    let mut state = centred();
    let mut terminal = Terminal::new();
    feed(&mut state, &mut terminal, &[0x08, 0x00, 0x02]);
    assert_eq!(state.y(), 10);
    feed(&mut state, &mut terminal, &[0x28, 0x00, 0xFD]);
    assert_eq!(state.y(), 13);
}

#[test]
fn negative_movement_bytes() {
    let mut state = centred();
    let mut terminal = Terminal::new();
    feed(&mut state, &mut terminal, &[0x18, 0xFB, 0x00]);
    assert_eq!(state.x(), 35);
    assert_eq!(state.y(), 12);
}

#[test]
fn sign_bit_with_positive_byte_subtracts_256() {
    let mut state = centred();
    let mut terminal = Terminal::new();
    // x byte 0x7F with the x sign bit set: 127 - 256 = -129.
    feed(&mut state, &mut terminal, &[0x18, 0x7F, 0x00]);
    assert_eq!(state.x(), 0);
    let mut state = centred();
    // y byte 0x7F with the y sign bit set: -129, inverted: +129.
    feed(&mut state, &mut terminal, &[0x28, 0x00, 0x7F]);
    assert_eq!(state.y(), 24);
}

#[test]
fn sign_bit_with_zero_byte_stays_zero() {
    let mut state = centred();
    let mut terminal = Terminal::new();
    feed(&mut state, &mut terminal, &[0x38, 0x00, 0x00]);
    assert_eq!(state.x(), 40);
    assert_eq!(state.y(), 12);
}

#[test]
fn position_is_clamped_to_the_grid() {
    let mut state = centred();
    let mut terminal = Terminal::new();
    feed(&mut state, &mut terminal, &[0x08, 0x7F, 0x7F]);
    assert_eq!(state.x(), 79);
    assert_eq!(state.y(), 0);
    feed(&mut state, &mut terminal, &[0x38, 0x80, 0x80]);
    assert_eq!(state.x(), 0);
    assert_eq!(state.y(), 24);
    feed(&mut state, &mut terminal, &[0x08, 0x4F, 0x18]);
    assert_eq!(state.x(), 79);
    assert_eq!(state.y(), 0);
}

#[test]
fn buttons_come_from_the_low_three_bits() {
    let mut state = centred();
    let mut terminal = Terminal::new();
    feed(&mut state, &mut terminal, &[0x0F, 0x00, 0x00]);
    assert_eq!(state.buttons(), 0x07);
    feed(&mut state, &mut terminal, &[0xCA, 0x00, 0x00]);
    assert_eq!(state.buttons(), 0x02);
    feed(&mut state, &mut terminal, &[0x08, 0x00, 0x00]);
    assert_eq!(state.buttons(), 0x00);
}

#[test]
fn cursor_glyph_follows_buttons() {
    let mut state = centred();
    let mut terminal = Terminal::new();
    feed(&mut state, &mut terminal, &[0x08, 0x00, 0x00]);
    assert_eq!(terminal.entry_at(40, 12), 0x4F00 | b'X' as u16);
    feed(&mut state, &mut terminal, &[0x09, 0x00, 0x00]);
    assert_eq!(terminal.entry_at(40, 12), 0x4F00 | b'#' as u16);
    feed(&mut state, &mut terminal, &[0x0A, 0x00, 0x00]);
    assert_eq!(terminal.entry_at(40, 12), 0x4F00 | b'@' as u16);
    feed(&mut state, &mut terminal, &[0x0B, 0x00, 0x00]);
    assert_eq!(terminal.entry_at(40, 12), 0x4F00 | b'#' as u16);
    feed(&mut state, &mut terminal, &[0x0C, 0x00, 0x00]);
    assert_eq!(terminal.entry_at(40, 12), 0x4F00 | b'X' as u16);
}

#[test]
fn cursor_leaves_no_trail() {
    let mut state = centred();
    let mut terminal = Terminal::new();
    terminal.put_entry_at(b'a', 0x07, 40, 12);
    terminal.put_entry_at(b'b', 0x07, 41, 12);
    terminal.put_entry_at(b'c', 0x07, 42, 12);
    feed(&mut state, &mut terminal, &[0x08, 0x00, 0x00]);
    assert_eq!(terminal.entry_at(40, 12), 0x4F58);
    feed(&mut state, &mut terminal, &[0x08, 0x01, 0x00]);
    assert_eq!(terminal.entry_at(40, 12), 0x0700 | b'a' as u16);
    assert_eq!(terminal.entry_at(41, 12), 0x4F58);
    feed(&mut state, &mut terminal, &[0x08, 0x01, 0x00]);
    assert_eq!(terminal.entry_at(41, 12), 0x0700 | b'b' as u16);
    assert_eq!(terminal.entry_at(42, 12), 0x4F58);
    // A packet without movement keeps what was saved.
    feed(&mut state, &mut terminal, &[0x08, 0x00, 0x00]);
    assert_eq!(terminal.entry_at(42, 12), 0x4F58);
    feed(&mut state, &mut terminal, &[0x18, 0xFF, 0x00]);
    assert_eq!(terminal.entry_at(42, 12), 0x0700 | b'c' as u16);
    assert_eq!(terminal.entry_at(41, 12), 0x4F58);
}

#[test]
fn first_cursor_puts_back_the_initial_saved_cell() {
    let mut state = centred();
    let mut terminal = Terminal::new();
    assert_eq!(terminal.entry_at(0, 0), 0x0720);
    feed(&mut state, &mut terminal, &[0x08, 0x00, 0x00]);
    assert_eq!(terminal.entry_at(0, 0), 0x0000);
    assert_eq!(terminal.entry_at(1, 0), 0x0720);
}

#[test]
fn mouse_interrupt_feeds_and_ends_on_both_controllers() {
    let mut state = centred();
    let mut terminal = Terminal::new();
    let eoi = handle_irq12(&mut state, &mut terminal, 0x08);
    assert_eq!(
        eoi,
        vec![
            Request::Write { port: 0xA0, value: 0x20 },
            Request::Write { port: 0x20, value: 0x20 },
        ]
    );
    assert_eq!(state.phase(), 1);
    handle_irq12(&mut state, &mut terminal, 0xFF);
    handle_irq12(&mut state, &mut terminal, 0x00);
    assert_eq!(state.x(), 39);
}

#[test]
fn mouse_interrupt_is_let_through() {
    let (mut pic, _) = init_pic(0x20, 0x28);
    let plan = setup_mouse_interrupt(&mut pic);
    assert_eq!(pic.slave_mask(), 0xEF);
    assert_eq!(pic.master_mask(), 0xF9);
    assert_eq!(
        plan,
        vec![
            Request::Write { port: 0xA1, value: 0xEF },
            Request::Write { port: 0x21, value: 0xF9 },
        ]
    );
}
