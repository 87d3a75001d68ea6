use kernel_core::ps2::keyboard::{
    clear_buffer, dequeue_key, enqueue_key, handle_keyboard_input, has_key, key_count,
    process_scancode, read_line, KeyBuffer, Modifiers, ReadLine, BUFFER_SIZE,
};
use kernel_core::vga::terminal::Terminal;

fn no_modifiers() -> Modifiers {
    Modifiers { shift: false, ctrl: false, alt: false, caps_lock: false }
}

fn queue_of(text: &str) -> KeyBuffer {
    let mut keys = KeyBuffer::new();
    for c in text.chars() {
        enqueue_key(&mut keys, c);
    }
    keys
}

#[test]
fn press_a_without_modifiers() {
    let mut modifiers = no_modifiers();
    assert_eq!(process_scancode(&mut modifiers, 0x1E), Some('a'));
    assert_eq!(modifiers, no_modifiers());
}

#[test]
fn press_a_with_shift() {
    let mut modifiers = Modifiers { shift: true, ..no_modifiers() };
    assert_eq!(process_scancode(&mut modifiers, 0x1E), Some('A'));
}

#[test]
fn press_a_with_caps_lock() {
    let mut modifiers = no_modifiers();
    assert_eq!(process_scancode(&mut modifiers, 0x3A), None);
    assert!(modifiers.caps_lock);
    assert!(!modifiers.shift);
    assert_eq!(process_scancode(&mut modifiers, 0x1E), Some('A'));
}

#[test]
fn press_a_with_caps_lock_and_shift() {
    let mut modifiers = no_modifiers();
    assert_eq!(process_scancode(&mut modifiers, 0x3A), None);
    assert_eq!(process_scancode(&mut modifiers, 0x2A), None);
    assert!(modifiers.caps_lock && modifiers.shift);
    assert_eq!(process_scancode(&mut modifiers, 0x1E), Some('a'));
}

#[test]
fn ctrl_c_gives_code_three() {
    let mut modifiers = no_modifiers();
    assert_eq!(process_scancode(&mut modifiers, 0x1D), None);
    assert!(modifiers.ctrl);
    assert_eq!(process_scancode(&mut modifiers, 0x2E), Some('\x03'));
}

#[test]
fn ctrl_maps_a_and_z() {
    let mut modifiers = Modifiers { ctrl: true, ..no_modifiers() };
    assert_eq!(process_scancode(&mut modifiers, 0x1E), Some('\x01'));
    assert_eq!(process_scancode(&mut modifiers, 0x2C), Some('\x1A'));
}

#[test]
fn ctrl_leaves_uppercase_and_digits() {
    let mut modifiers = Modifiers { ctrl: true, shift: true, ..no_modifiers() };
    assert_eq!(process_scancode(&mut modifiers, 0x2E), Some('C'));
    let mut modifiers = Modifiers { ctrl: true, ..no_modifiers() };
    assert_eq!(process_scancode(&mut modifiers, 0x02), Some('1'));
}

#[test]
fn caps_lock_leaves_digits_alone() {
    let mut modifiers = Modifiers { caps_lock: true, ..no_modifiers() };
    assert_eq!(process_scancode(&mut modifiers, 0x02), Some('1'));
    assert_eq!(process_scancode(&mut modifiers, 0x0D), Some('='));
    let mut modifiers = Modifiers { shift: true, caps_lock: true, ..no_modifiers() };
    assert_eq!(process_scancode(&mut modifiers, 0x02), Some('!'));
}

#[test]
fn shift_follows_press_and_release() {
    let mut modifiers = no_modifiers();
    assert_eq!(process_scancode(&mut modifiers, 0x2A), None);
    assert!(modifiers.shift);
    assert_eq!(process_scancode(&mut modifiers, 0xAA), None);
    assert!(!modifiers.shift);
    assert_eq!(process_scancode(&mut modifiers, 0x36), None);
    assert!(modifiers.shift);
    assert_eq!(process_scancode(&mut modifiers, 0xB6), None);
    assert!(!modifiers.shift);
}

#[test]
fn ctrl_and_alt_follow_press_and_release() {
    let mut modifiers = no_modifiers();
    process_scancode(&mut modifiers, 0x1D);
    process_scancode(&mut modifiers, 0x38);
    assert!(modifiers.ctrl && modifiers.alt);
    process_scancode(&mut modifiers, 0x9D);
    assert!(!modifiers.ctrl && modifiers.alt);
    process_scancode(&mut modifiers, 0xB8);
    assert_eq!(modifiers, no_modifiers());
}

#[test]
fn caps_lock_toggles_on_press_only() {
    let mut modifiers = no_modifiers();
    process_scancode(&mut modifiers, 0x3A);
    assert!(modifiers.caps_lock);
    assert_eq!(process_scancode(&mut modifiers, 0xBA), None);
    assert!(modifiers.caps_lock);
    process_scancode(&mut modifiers, 0x3A);
    assert!(!modifiers.caps_lock);
}

#[test]
fn release_gives_nothing() {
    let mut modifiers = no_modifiers();
    assert_eq!(process_scancode(&mut modifiers, 0x9E), None);
    assert_eq!(process_scancode(&mut modifiers, 0xFF), None);
    assert_eq!(modifiers, no_modifiers());
}

#[test]
fn keys_without_character_give_nothing() {
    let mut modifiers = no_modifiers();
    assert_eq!(process_scancode(&mut modifiers, 0x00), None);
    assert_eq!(process_scancode(&mut modifiers, 0x3B), None);
    assert_eq!(process_scancode(&mut modifiers, 0x7F), None);
}

#[test]
fn whole_unshifted_table() {
    let rows = "\u{0}\u{1b}1234567890-=\u{8}\tqwertyuiop[]\n\u{0}asdfghjkl;'`\u{0}\\zxcvbnm,./\u{0}*\u{0} ";
    for (code, expected) in rows.chars().enumerate() {
        let mut modifiers = no_modifiers();
        let result = process_scancode(&mut modifiers, code as u8);
        if code == 0x1D || code == 0x2A || code == 0x36 || code == 0x38 {
            assert_eq!(result, None);
        } else if expected == '\0' {
            assert_eq!(result, None);
        } else {
            assert_eq!(result, Some(expected));
        }
    }
}

#[test]
fn whole_shifted_table() {
    let rows = "\u{0}\u{1b}!@#$%^&*()_+\u{8}\tQWERTYUIOP{}\n\u{0}ASDFGHJKL:\"~\u{0}|ZXCVBNM<>?\u{0}*\u{0} ";
    for (code, expected) in rows.chars().enumerate() {
        if code == 0x1D || code == 0x2A || code == 0x36 || code == 0x38 || code == 0x3A {
            continue;
        }
        let mut modifiers = Modifiers { shift: true, ..no_modifiers() };
        let result = process_scancode(&mut modifiers, code as u8);
        if expected == '\0' {
            assert_eq!(result, None);
        } else {
            assert_eq!(result, Some(expected));
        }
    }
}

#[test]
fn queue_starts_empty() {
    let mut keys = KeyBuffer::new();
    assert!(!has_key(&keys));
    assert_eq!(key_count(&keys), 0);
    assert_eq!(dequeue_key(&mut keys), None);
}

#[test]
fn queue_gives_back_in_order() {
    let mut keys = queue_of("abc");
    assert!(has_key(&keys));
    assert_eq!(key_count(&keys), 3);
    assert_eq!(dequeue_key(&mut keys), Some('a'));
    assert_eq!(dequeue_key(&mut keys), Some('b'));
    assert_eq!(key_count(&keys), 1);
    assert_eq!(dequeue_key(&mut keys), Some('c'));
    assert_eq!(dequeue_key(&mut keys), None);
    assert!(!has_key(&keys));
}

#[test]
fn queue_drops_when_full() {
    let mut keys = KeyBuffer::new();
    for i in 0..BUFFER_SIZE - 1 {
        enqueue_key(&mut keys, char::from((i % 26) as u8 + b'a'));
        assert!(has_key(&keys));
        assert_eq!(key_count(&keys), i + 1);
    }
    assert_eq!(key_count(&keys), BUFFER_SIZE - 1);
    enqueue_key(&mut keys, '!');
    assert_eq!(key_count(&keys), BUFFER_SIZE - 1);
    for i in 0..BUFFER_SIZE - 1 {
        assert_eq!(dequeue_key(&mut keys), Some(char::from((i % 26) as u8 + b'a')));
    }
    assert_eq!(dequeue_key(&mut keys), None);
}

#[test]
fn queue_wraps_around() {
    let mut keys = KeyBuffer::new();
    for round in 0..3 {
        for i in 0..200u32 {
            enqueue_key(&mut keys, char::from_u32(0x100 + round * 200 + i).unwrap());
        }
        assert_eq!(key_count(&keys), 200);
        for i in 0..200u32 {
            assert_eq!(dequeue_key(&mut keys), char::from_u32(0x100 + round * 200 + i));
        }
        assert_eq!(key_count(&keys), 0);
    }
}

#[test]
fn clear_empties_the_queue() {
    let mut keys = queue_of("hello");
    clear_buffer(&mut keys);
    assert!(!has_key(&keys));
    assert_eq!(key_count(&keys), 0);
    assert_eq!(dequeue_key(&mut keys), None);
    enqueue_key(&mut keys, 'x');
    assert_eq!(dequeue_key(&mut keys), Some('x'));
}

#[test]
fn keyboard_input_queues_characters() {
    let mut modifiers = no_modifiers();
    let mut keys = KeyBuffer::new();
    assert_eq!(handle_keyboard_input(&mut modifiers, &mut keys, 0x2A), None);
    assert_eq!(handle_keyboard_input(&mut modifiers, &mut keys, 0x23), Some('H'));
    assert_eq!(handle_keyboard_input(&mut modifiers, &mut keys, 0xA3), None);
    assert_eq!(handle_keyboard_input(&mut modifiers, &mut keys, 0xAA), None);
    assert_eq!(handle_keyboard_input(&mut modifiers, &mut keys, 0x17), Some('i'));
    assert_eq!(key_count(&keys), 2);
    assert_eq!(dequeue_key(&mut keys), Some('H'));
    assert_eq!(dequeue_key(&mut keys), Some('i'));
}

#[test]
fn keyboard_input_on_full_queue_is_dropped() {
    let mut modifiers = no_modifiers();
    let mut keys = KeyBuffer::new();
    for _ in 0..BUFFER_SIZE - 1 {
        enqueue_key(&mut keys, 'x');
    }
    assert_eq!(handle_keyboard_input(&mut modifiers, &mut keys, 0x1E), Some('a'));
    assert_eq!(key_count(&keys), BUFFER_SIZE - 1);
    for _ in 0..BUFFER_SIZE - 1 {
        assert_eq!(dequeue_key(&mut keys), Some('x'));
    }
    assert_eq!(dequeue_key(&mut keys), None);
}

#[test]
fn read_line_until_line_feed() {
    let mut keys = queue_of("hi\nrest");
    let mut terminal = Terminal::new();
    let mut buffer = [0xEEu8; 16];
    let result = read_line(&mut keys, &mut buffer, 16, 0, &mut terminal);
    assert_eq!(result, ReadLine::Complete { count: 3 });
    assert_eq!(&buffer[0..4], b"hi\n\0");
    assert_eq!(buffer[4], 0xEE);
    assert_eq!(key_count(&keys), 4);
    assert_eq!(dequeue_key(&mut keys), Some('r'));
    assert_eq!(terminal.entry_at(0, 0), 0x0700 | b'h' as u16);
    assert_eq!(terminal.entry_at(1, 0), 0x0700 | b'i' as u16);
    assert_eq!(terminal.row(), 1);
    assert_eq!(terminal.column(), 0);
}

#[test]
fn read_line_backspace_takes_back() {
    let mut keys = queue_of("ab\u{8}c\n");
    let mut terminal = Terminal::new();
    let mut buffer = [0u8; 16];
    let result = read_line(&mut keys, &mut buffer, 16, 0, &mut terminal);
    assert_eq!(result, ReadLine::Complete { count: 3 });
    assert_eq!(&buffer[0..4], b"ac\n\0");
}

#[test]
fn read_line_backspace_on_empty_line_is_ignored() {
    let mut keys = queue_of("\u{8}\u{8}x\n");
    let mut terminal = Terminal::new();
    let mut buffer = [0u8; 8];
    let result = read_line(&mut keys, &mut buffer, 8, 0, &mut terminal);
    assert_eq!(result, ReadLine::Complete { count: 2 });
    assert_eq!(&buffer[0..3], b"x\n\0");
    assert_eq!(terminal.entry_at(0, 0), 0x0700 | b'x' as u16);
}

#[test]
fn read_line_ignores_control_characters_but_tab() {
    let mut keys = queue_of("a\u{1b}\u{3}\tb\n");
    let mut terminal = Terminal::new();
    let mut buffer = [0u8; 8];
    let result = read_line(&mut keys, &mut buffer, 8, 0, &mut terminal);
    assert_eq!(result, ReadLine::Complete { count: 4 });
    assert_eq!(&buffer[0..5], b"a\tb\n\0");
}

#[test]
fn read_line_stops_when_buffer_is_full() {
    let mut keys = queue_of("abcdefgh");
    let mut terminal = Terminal::new();
    let mut buffer = [0xEEu8; 8];
    let result = read_line(&mut keys, &mut buffer, 4, 0, &mut terminal);
    assert_eq!(result, ReadLine::Complete { count: 3 });
    assert_eq!(&buffer[0..4], b"abc\0");
    assert_eq!(buffer[4], 0xEE);
    assert_eq!(dequeue_key(&mut keys), Some('d'));
}

#[test]
fn read_line_of_length_one_reads_nothing() {
    let mut keys = queue_of("abc");
    let mut terminal = Terminal::new();
    let mut buffer = [0xEEu8; 2];
    let result = read_line(&mut keys, &mut buffer, 1, 0, &mut terminal);
    assert_eq!(result, ReadLine::Complete { count: 0 });
    assert_eq!(buffer, [0, 0xEE]);
    assert_eq!(key_count(&keys), 3);
}

#[test]
fn read_line_pending_then_resumed() {
    let mut keys = queue_of("ab");
    let mut terminal = Terminal::new();
    let mut buffer = [0xEEu8; 8];
    let result = read_line(&mut keys, &mut buffer, 8, 0, &mut terminal);
    assert_eq!(result, ReadLine::Pending { count: 2 });
    assert_eq!(&buffer[0..3], &[b'a', b'b', 0xEE]);
    assert!(!has_key(&keys));
    enqueue_key(&mut keys, 'c');
    enqueue_key(&mut keys, '\n');
    let result = read_line(&mut keys, &mut buffer, 8, 2, &mut terminal);
    assert_eq!(result, ReadLine::Complete { count: 4 });
    assert_eq!(&buffer[0..5], b"abc\n\0");
}

#[test]
fn read_line_echoes_erase_sequence() {
    let mut keys = queue_of("a\u{8}");
    let mut terminal = Terminal::new();
    let mut buffer = [0u8; 8];
    let result = read_line(&mut keys, &mut buffer, 8, 0, &mut terminal);
    assert_eq!(result, ReadLine::Pending { count: 0 });
    assert_eq!(terminal.entry_at(0, 0), 0x0700 | b'a' as u16);
    assert_eq!(terminal.entry_at(1, 0), 0x0708);
    assert_eq!(terminal.entry_at(2, 0), 0x0720);
    assert_eq!(terminal.entry_at(3, 0), 0x0708);
    assert_eq!(terminal.column(), 4);
}
