use kernel_core::interrupts::pic::{
    handle_interrupt, init_pic, route, send_eoi, Devices, Route,
};
use kernel_core::platform::Request;
use kernel_core::ps2::keyboard::{dequeue_key, key_count, KeyBuffer, Modifiers};
use kernel_core::ps2::mouse::MouseState;
use kernel_core::vga::terminal::Terminal;

fn write(port: u16, value: u8) -> Request {
    Request::Write { port, value }
}

fn devices() -> Devices {
    let (pic, _) = init_pic(0x20, 0x28);
    let mut mouse = MouseState::new();
    mouse.reset();
    Devices {
        pic,
        ticks: 0,
        modifiers: Modifiers { shift: false, ctrl: false, alt: false, caps_lock: false },
        keys: KeyBuffer::new(),
        mouse,
        terminal: Terminal::new(),
    }
}

#[test]
fn eoi_for_slave_line_goes_to_slave_then_master() {
    assert_eq!(send_eoi(10), vec![write(0xA0, 0x20), write(0x20, 0x20)]);
    assert_eq!(send_eoi(8), vec![write(0xA0, 0x20), write(0x20, 0x20)]);
    assert_eq!(send_eoi(15), vec![write(0xA0, 0x20), write(0x20, 0x20)]);
}

#[test]
fn eoi_for_master_line_goes_to_master_only() {
    assert_eq!(send_eoi(1), vec![write(0x20, 0x20)]);
    assert_eq!(send_eoi(0), vec![write(0x20, 0x20)]);
    assert_eq!(send_eoi(7), vec![write(0x20, 0x20)]);
}

#[test]
fn remap_writes_the_initialisation_words() {
    let (_, plan) = init_pic(0x20, 0x28);
    assert_eq!(
        plan,
        vec![
            write(0x20, 0x11),
            write(0xA0, 0x11),
            write(0x21, 0x20),
            write(0xA1, 0x28),
            write(0x21, 0x04),
            write(0xA1, 0x02),
            write(0x21, 0x01),
            write(0xA1, 0x01),
            write(0x21, 0x00),
            write(0xA1, 0x00),
            write(0x21, 0xFD),
            write(0xA1, 0xFF),
        ]
    );
}

#[test]
fn remap_uses_the_offsets_given() {
    let (pic, plan) = init_pic(0x40, 0x70);
    assert_eq!(plan[2], write(0x21, 0x40));
    assert_eq!(plan[3], write(0xA1, 0x70));
    assert_eq!(pic.master_offset(), 0x40);
    assert_eq!(pic.slave_offset(), 0x70);
    assert_eq!(pic.line(0x41), Some(1));
    assert_eq!(pic.line(0x77), Some(15));
    assert_eq!(pic.line(0x20), None);
}

#[test]
fn remap_maps_vectors_to_lines() {
    let (pic, _) = init_pic(0x20, 0x28);
    assert_eq!(pic.master_offset(), 0x20);
    assert_eq!(pic.slave_offset(), 0x28);
    assert_eq!(pic.line(0x20), Some(0));
    assert_eq!(pic.line(0x27), Some(7));
    assert_eq!(pic.line(0x28), Some(8));
    assert_eq!(pic.line(0x2F), Some(15));
    assert_eq!(pic.line(0x30), None);
    assert_eq!(pic.line(0xFF), None);
    for vector in 0u8..32 {
        assert_eq!(pic.line(vector), None);
    }
}

#[test]
fn remap_masks_all_but_the_keyboard() {
    let (pic, _) = init_pic(0x20, 0x28);
    assert_eq!(pic.master_mask(), 0xFD);
    assert_eq!(pic.slave_mask(), 0xFF);
}

#[test]
fn unmask_master_line() {
    let (mut pic, _) = init_pic(0x20, 0x28);
    let plan = pic.unmask(0);
    assert_eq!(pic.master_mask(), 0xFC);
    assert_eq!(pic.slave_mask(), 0xFF);
    assert_eq!(plan, vec![write(0x21, 0xFC)]);
}

#[test]
fn unmask_slave_line_opens_the_cascade() {
    let (mut pic, _) = init_pic(0x20, 0x28);
    let plan = pic.unmask(15);
    assert_eq!(pic.slave_mask(), 0x7F);
    assert_eq!(pic.master_mask(), 0xF9);
    assert_eq!(plan, vec![write(0xA1, 0x7F), write(0x21, 0xF9)]);
}

#[test]
fn routes_by_line() {
    let (pic, _) = init_pic(0x20, 0x28);
    assert_eq!(route(&pic, 0x20), Route::Timer);
    assert_eq!(route(&pic, 0x21), Route::Keyboard);
    assert_eq!(route(&pic, 0x2C), Route::Mouse);
    assert_eq!(route(&pic, 0x22), Route::Unhandled);
    assert_eq!(route(&pic, 0x2D), Route::Unhandled);
    assert_eq!(route(&pic, 0x00), Route::Unhandled);
    assert_eq!(route(&pic, 0x0E), Route::Unhandled);
    assert_eq!(route(&pic, 0x80), Route::Unhandled);
}

#[test]
fn routes_follow_the_offsets() {
    let (pic, _) = init_pic(0x50, 0x30);
    assert_eq!(route(&pic, 0x50), Route::Timer);
    assert_eq!(route(&pic, 0x51), Route::Keyboard);
    assert_eq!(route(&pic, 0x34), Route::Mouse);
    assert_eq!(route(&pic, 0x20), Route::Unhandled);
    assert_eq!(route(&pic, 0x2C), Route::Unhandled);
}

#[test]
fn data_port_of_routes() {
    assert_eq!(Route::Keyboard.data_port(), Some(0x60));
    assert_eq!(Route::Mouse.data_port(), Some(0x60));
    assert_eq!(Route::Timer.data_port(), None);
    assert_eq!(Route::Unhandled.data_port(), None);
}

#[test]
fn timer_interrupt_counts_a_tick() {
    let mut devices = devices();
    let served = handle_interrupt(&mut devices, 0x20, 0);
    assert_eq!(served.route, Route::Timer);
    assert_eq!(served.eoi, vec![write(0x20, 0x20)]);
    assert_eq!(served.tick_report, None);
    assert_eq!(served.key, None);
    assert_eq!(devices.ticks, 1);
    assert_eq!(key_count(&devices.keys), 0);
    assert_eq!(devices.mouse.phase(), 0);
}

#[test]
fn hundredth_tick_is_reported() {
    let mut devices = devices();
    devices.ticks = 98;
    assert_eq!(handle_interrupt(&mut devices, 0x20, 0).tick_report, None);
    assert_eq!(handle_interrupt(&mut devices, 0x20, 0).tick_report, Some(100));
    assert_eq!(handle_interrupt(&mut devices, 0x20, 0).tick_report, None);
    assert_eq!(devices.ticks, 101);
    // A keyboard interrupt reports no tick, even on a count that is due.
    devices.ticks = 200;
    assert_eq!(handle_interrupt(&mut devices, 0x21, 0x9E).tick_report, None);
    assert_eq!(devices.ticks, 200);
}

#[test]
fn keyboard_interrupt_decodes_and_queues() {
    let mut devices = devices();
    let served = handle_interrupt(&mut devices, 0x21, 0x1E);
    assert_eq!(served.route, Route::Keyboard);
    assert_eq!(served.eoi, vec![write(0x20, 0x20)]);
    assert_eq!(served.key, Some('a'));
    assert_eq!(served.tick_report, None);
    assert_eq!(devices.ticks, 0);
    assert_eq!(dequeue_key(&mut devices.keys), Some('a'));
    let served = handle_interrupt(&mut devices, 0x21, 0x2A);
    assert_eq!(served.route, Route::Keyboard);
    assert!(devices.modifiers.shift);
    assert_eq!(key_count(&devices.keys), 0);
}

#[test]
fn mouse_interrupt_feeds_the_assembler() {
    let mut devices = devices();
    for byte in [0x08u8, 0x01, 0x00] {
        let served = handle_interrupt(&mut devices, 0x2C, byte);
        assert_eq!(served.route, Route::Mouse);
        assert_eq!(served.eoi, vec![write(0xA0, 0x20), write(0x20, 0x20)]);
    }
    assert_eq!(devices.mouse.x(), 41);
    assert_eq!(devices.mouse.y(), 12);
    assert_eq!(devices.terminal.entry_at(41, 12), 0x4F58);
    assert_eq!(devices.ticks, 0);
    assert_eq!(key_count(&devices.keys), 0);
}

#[test]
fn unhandled_interrupt_still_ends() {
    let mut devices = devices();
    let served = handle_interrupt(&mut devices, 0x23, 0x1E);
    assert_eq!(served.route, Route::Unhandled);
    assert_eq!(served.eoi, vec![write(0x20, 0x20)]);
    let served = handle_interrupt(&mut devices, 0x2A, 0x1E);
    assert_eq!(served.route, Route::Unhandled);
    assert_eq!(served.eoi, vec![write(0xA0, 0x20), write(0x20, 0x20)]);
    let served = handle_interrupt(&mut devices, 0x90, 0x1E);
    assert_eq!(served.route, Route::Unhandled);
    assert_eq!(served.eoi, vec![write(0x20, 0x20)]);
    assert_eq!(devices.ticks, 0);
    assert_eq!(key_count(&devices.keys), 0);
    assert_eq!(devices.mouse.phase(), 0);
    assert!(!devices.modifiers.shift);
}
