//! PS/2 keyboard: scancode decoding with modifier tracking, and the bounded
//! queue that carries decoded characters from the interrupt path to readers.

use vstd::prelude::*;
use crate::vga::terminal::{Screen, Terminal};

verus! {

/// Number of slots in the key queue. One slot always stays free, so the queue
/// holds at most `BUFFER_SIZE - 1` characters.
pub const BUFFER_SIZE: usize = 256;

/// Bit of a scancode that marks a key release.
pub const RELEASE_BIT: u8 = 0x80;

/// Scancode of the left shift key going down; with `RELEASE_BIT`, going up.
pub const LSHIFT_PRESS: u8 = 0x2A;

/// Scancode of the right shift key going down.
pub const RSHIFT_PRESS: u8 = 0x36;

/// Scancode of the ctrl key going down.
pub const CTRL_PRESS: u8 = 0x1D;

/// Scancode of the alt key going down.
pub const ALT_PRESS: u8 = 0x38;

/// Scancode of the Caps Lock key going down.
pub const CAPS_LOCK_PRESS: u8 = 0x3A;

/// Key code to character, US QWERTY, no shift. `'\0'` marks a key without a
/// character.
pub const SCANCODE_TO_ASCII: [char; 128] = [
    '\0', '\x1B', '1', '2', '3', '4', '5', '6', '7', '8', '9', '0', '-', '=', '\x08', '\t',
    'q', 'w', 'e', 'r', 't', 'y', 'u', 'i', 'o', 'p', '[', ']', '\n', '\0', 'a', 's',
    'd', 'f', 'g', 'h', 'j', 'k', 'l', ';', '\'', '`', '\0', '\\', 'z', 'x', 'c', 'v',
    'b', 'n', 'm', ',', '.', '/', '\0', '*', '\0', ' ', '\0', '\0', '\0', '\0', '\0', '\0',
    '\0', '\0', '\0', '\0', '\0', '\0', '\0', '\0', '\0', '\0', '\0', '\0', '\0', '\0', '\0', '\0',
    '\0', '\0', '\0', '\0', '\0', '\0', '\0', '\0', '\0', '\0', '\0', '\0', '\0', '\0', '\0', '\0',
    '\0', '\0', '\0', '\0', '\0', '\0', '\0', '\0', '\0', '\0', '\0', '\0', '\0', '\0', '\0', '\0',
    '\0', '\0', '\0', '\0', '\0', '\0', '\0', '\0', '\0', '\0', '\0', '\0', '\0', '\0', '\0', '\0',
];

/// Key code to character, US QWERTY, shifted.
pub const SHIFT_SCANCODE_TO_ASCII: [char; 128] = [
    '\0', '\x1B', '!', '@', '#', '$', '%', '^', '&', '*', '(', ')', '_', '+', '\x08', '\t',
    'Q', 'W', 'E', 'R', 'T', 'Y', 'U', 'I', 'O', 'P', '{', '}', '\n', '\0', 'A', 'S',
    'D', 'F', 'G', 'H', 'J', 'K', 'L', ':', '"', '~', '\0', '|', 'Z', 'X', 'C', 'V',
    'B', 'N', 'M', '<', '>', '?', '\0', '*', '\0', ' ', '\0', '\0', '\0', '\0', '\0', '\0',
    '\0', '\0', '\0', '\0', '\0', '\0', '\0', '\0', '\0', '\0', '\0', '\0', '\0', '\0', '\0', '\0',
    '\0', '\0', '\0', '\0', '\0', '\0', '\0', '\0', '\0', '\0', '\0', '\0', '\0', '\0', '\0', '\0',
    '\0', '\0', '\0', '\0', '\0', '\0', '\0', '\0', '\0', '\0', '\0', '\0', '\0', '\0', '\0', '\0',
    '\0', '\0', '\0', '\0', '\0', '\0', '\0', '\0', '\0', '\0', '\0', '\0', '\0', '\0', '\0', '\0',
];

/// The modifier keys as the decoder last saw them.
#[derive(Clone, Copy, Debug, PartialEq, Eq, Structural)]
pub struct Modifiers {
    /// Either shift key is held.
    pub shift: bool,
    /// Ctrl is held.
    pub ctrl: bool,
    /// Alt is held.
    pub alt: bool,
    /// Caps Lock is on.
    pub caps_lock: bool,
}

/// A scancode with the release bit set reports that a key went up.
pub open spec fn is_release(scancode: u8) -> bool {
    scancode >= RELEASE_BIT
}

/// The key a scancode names: its low seven bits.
pub open spec fn key_code(scancode: u8) -> int {
    scancode as int % 128
}

/// Keys that only change the modifier state and never produce a character.
pub open spec fn is_modifier_key(key: int) -> bool {
    key == LSHIFT_PRESS || key == RSHIFT_PRESS || key == CTRL_PRESS || key == ALT_PRESS || key
        == CAPS_LOCK_PRESS
}

/// Keys of the three alphabetic rows; for these Caps Lock inverts shift.
pub open spec fn is_letter_key(key: int) -> bool {
    0x10 <= key <= 0x19 || 0x1E <= key <= 0x26 || 0x2C <= key <= 0x32
}

/// The modifier state after `scancode`: shift, ctrl and alt follow their key
/// down and up, Caps Lock flips when its key goes down, every other scancode
/// leaves the state alone.
pub open spec fn modifiers_after(before: Modifiers, scancode: u8) -> Modifiers {
    let key = key_code(scancode);
    let down = !is_release(scancode);
    if key == LSHIFT_PRESS || key == RSHIFT_PRESS {
        Modifiers { shift: down, ..before }
    } else if key == CTRL_PRESS {
        Modifiers { ctrl: down, ..before }
    } else if key == ALT_PRESS {
        Modifiers { alt: down, ..before }
    } else if key == CAPS_LOCK_PRESS && down {
        Modifiers { caps_lock: !before.caps_lock, ..before }
    } else {
        before
    }
}

/// Whether a key press reads the shifted table: shift alone decides, except on
/// letter keys, where shift and Caps Lock cancel each other.
pub open spec fn uses_shift_table(modifiers: Modifiers, key: int) -> bool {
    if is_letter_key(key) {
        modifiers.shift != modifiers.caps_lock
    } else {
        modifiers.shift
    }
}

/// The table entry that a key press selects under the given modifiers.
pub open spec fn table_entry(modifiers: Modifiers, key: int) -> char {
    if uses_shift_table(modifiers, key) {
        SHIFT_SCANCODE_TO_ASCII[key]
    } else {
        SCANCODE_TO_ASCII[key]
    }
}

/// The ASCII control code of a lowercase letter: `'a'` gives 1, `'z'` gives 26.
pub open spec fn control_code(letter: char) -> char {
    (letter as int - 'a' as int + 1) as char
}

/// The character that `scancode` produces under `modifiers`, if any. Releases
/// and modifier keys produce none. A press selects a table entry; with ctrl
/// held a lowercase entry becomes its control code; a `'\0'` entry produces
/// nothing.
pub open spec fn decoded(modifiers: Modifiers, scancode: u8) -> Option<char> {
    let key = key_code(scancode);
    let entry = table_entry(modifiers, key);
    if is_release(scancode) || is_modifier_key(key) {
        None
    } else if modifiers.ctrl && 'a' <= entry <= 'z' {
        Some(control_code(entry))
    } else if entry == '\0' {
        None
    } else {
        Some(entry)
    }
}

/// Feeds one scancode to the decoder: updates the modifier state and returns
/// the character the scancode stands for, if it stands for one.
pub fn process_scancode(modifiers: &mut Modifiers, scancode: u8) -> (result: Option<char>)
    ensures
        *final(modifiers) == modifiers_after(*old(modifiers), scancode),
        result == decoded(*old(modifiers), scancode),
{
    let is_release = scancode >= RELEASE_BIT;
    let key: u8 = if is_release {
        scancode - RELEASE_BIT
    } else {
        scancode
    };

    if key == LSHIFT_PRESS || key == RSHIFT_PRESS {
        modifiers.shift = !is_release;
        return None;
    }
    if key == CTRL_PRESS {
        modifiers.ctrl = !is_release;
        return None;
    }
    if key == ALT_PRESS {
        modifiers.alt = !is_release;
        return None;
    }
    if key == CAPS_LOCK_PRESS {
        if !is_release {
            modifiers.caps_lock = !modifiers.caps_lock;
        }
        return None;
    }
    if is_release {
        return None;
    }
    let is_letter = (key >= 0x10 && key <= 0x19) || (key >= 0x1E && key <= 0x26) || (key >= 0x2C
        && key <= 0x32);
    let use_shift_table = if is_letter {
        modifiers.shift != modifiers.caps_lock
    } else {
        modifiers.shift
    };
    let entry = if use_shift_table {
        SHIFT_SCANCODE_TO_ASCII[key as usize]
    } else {
        SCANCODE_TO_ASCII[key as usize]
    };

    if modifiers.ctrl && entry >= 'a' && entry <= 'z' {
        Some(((entry as u8) - 0x61u8 + 1) as char)
    } else if entry == '\0' {
        None
    } else {
        Some(entry)
    }
}

/// Circular queue of decoded characters. `head` is the slot the next character
/// goes to, `tail` the slot the next one comes from; the queue is empty when
/// they meet and full when `head` is one slot behind `tail`.
pub struct KeyBuffer {
    buffer: [char; BUFFER_SIZE],
    head: usize,
    tail: usize,
}

impl View for KeyBuffer {
    type V = Seq<char>;

    /// The queued characters, oldest first.
    closed spec fn view(&self) -> Seq<char> {
        Seq::new(
            ((self.head + BUFFER_SIZE - self.tail) % (BUFFER_SIZE as int)) as nat,
            |i: int| self.buffer[(self.tail + i) % (BUFFER_SIZE as int)],
        )
    }
}

/// What a queue holding `queue` holds after `c` is offered to it: `c` is
/// appended while there is room and dropped when the queue is full.
pub open spec fn enqueued(queue: Seq<char>, c: char) -> Seq<char> {
    if queue.len() < BUFFER_SIZE - 1 {
        queue.push(c)
    } else {
        queue
    }
}

/// What a queue holds after the characters of `cs` are offered to it in order.
pub open spec fn enqueued_all(queue: Seq<char>, cs: Seq<char>) -> Seq<char>
    decreases cs.len(),
{
    if cs.len() == 0 {
        queue
    } else {
        enqueued(enqueued_all(queue, cs.drop_last()), cs.last())
    }
}

impl KeyBuffer {
    #[verifier::type_invariant]
    spec fn inv(self) -> bool {
        self.head < BUFFER_SIZE && self.tail < BUFFER_SIZE
    }

    /// An empty queue.
    pub fn new() -> (buffer: KeyBuffer)
        ensures
            buffer@ == Seq::<char>::empty(),
    {
        KeyBuffer { buffer: ['\0'; BUFFER_SIZE], head: 0, tail: 0 }
    }

    /// A queue never holds more than `BUFFER_SIZE - 1` characters.
    pub proof fn lemma_len_bound(self)
        ensures
            self@.len() <= BUFFER_SIZE - 1,
    {
    }
}

/// Offers `c` to the queue. A full queue drops it: nothing queued is ever
/// overwritten.
pub fn enqueue_key(buffer: &mut KeyBuffer, c: char)
    ensures
        final(buffer)@ == enqueued(old(buffer)@, c),
{
    proof {
        use_type_invariant(&*buffer);
    }
    let next_head = (buffer.head + 1) % BUFFER_SIZE;
    if next_head != buffer.tail {
        let ghost before = *buffer;
        buffer.buffer[buffer.head] = c;
        buffer.head = next_head;
        proof {
            let len = before@.len() as int;
            assert(len == if before.head >= before.tail {
                before.head - before.tail
            } else {
                BUFFER_SIZE - before.tail + before.head
            });
            assert(buffer@.len() == len + 1);
            assert forall|i: int| 0 <= i < len + 1 implies buffer@[i] == before@.push(c)[i] by {
                let slot = (before.tail + i) % (BUFFER_SIZE as int);
                assert(slot == if before.tail + i < BUFFER_SIZE {
                    before.tail + i
                } else {
                    before.tail + i - BUFFER_SIZE
                });
                assert(slot == before.head <==> i == len);
            }
            assert(buffer@ =~= before@.push(c));
        }
    }
}

/// Takes the oldest character out of the queue, or returns `None` when the
/// queue is empty.
pub fn dequeue_key(buffer: &mut KeyBuffer) -> (result: Option<char>)
    ensures
        old(buffer)@.len() == 0 ==> result.is_none() && final(buffer)@ == old(buffer)@,
        old(buffer)@.len() > 0 ==> result == Some(old(buffer)@[0]) && final(buffer)@ == old(
            buffer,
        )@.drop_first(),
{
    proof {
        use_type_invariant(&*buffer);
    }
    if buffer.head == buffer.tail {
        return None;
    }
    let ghost before = *buffer;
    let c = buffer.buffer[buffer.tail];
    buffer.tail = (buffer.tail + 1) % BUFFER_SIZE;
    proof {
        let len = before@.len() as int;
        assert(len == if before.head >= before.tail {
            before.head - before.tail
        } else {
            BUFFER_SIZE - before.tail + before.head
        });
        assert(buffer@.len() == len - 1);
        assert forall|i: int| 0 <= i < len - 1 implies buffer@[i] == before@.drop_first()[i] by {
            assert((buffer.tail + i) % (BUFFER_SIZE as int) == (before.tail + (i + 1)) % (
            BUFFER_SIZE as int));
        }
        assert(buffer@ =~= before@.drop_first());
    }
    Some(c)
}

/// Whether a character is waiting in the queue.
pub fn has_key(buffer: &KeyBuffer) -> (result: bool)
    ensures
        result == (buffer@.len() > 0),
{
    proof {
        use_type_invariant(buffer);
    }
    buffer.head != buffer.tail
}

/// How many characters are waiting in the queue.
pub fn key_count(buffer: &KeyBuffer) -> (count: usize)
    ensures
        count == buffer@.len(),
{
    proof {
        use_type_invariant(buffer);
    }
    if buffer.head >= buffer.tail {
        buffer.head - buffer.tail
    } else {
        BUFFER_SIZE - buffer.tail + buffer.head
    }
}

/// Discards everything that is queued.
pub fn clear_buffer(buffer: &mut KeyBuffer)
    ensures
        final(buffer)@ == Seq::<char>::empty(),
{
    proof {
        use_type_invariant(&*buffer);
    }
    buffer.tail = 0;
    buffer.head = 0;
}

/// Handles one byte from the keyboard: decodes it and queues the character it
/// produces, if any. Returns that character, whether or not the queue had room
/// for it.
pub fn handle_keyboard_input(modifiers: &mut Modifiers, buffer: &mut KeyBuffer, scancode: u8) -> (result:
    Option<char>)
    ensures
        *final(modifiers) == modifiers_after(*old(modifiers), scancode),
        result == decoded(*old(modifiers), scancode),
        final(buffer)@ == match result {
            Some(c) => enqueued(old(buffer)@, c),
            None => old(buffer)@,
        },
{
    let result = process_scancode(modifiers, scancode);
    if let Some(c) = result {
        enqueue_key(buffer, c);
    }
    result
}

/// The backspace character.
pub const BACKSPACE: char = '\x08';

/// What the display is sent for a backspace: back, blank, back.
pub const ERASE: [u8; 3] = [0x08, 0x20, 0x08];

/// A line that is being read: the caller's buffer, how much of it holds the
/// line so far, and the display that echoes what is typed.
pub struct Line {
    /// The buffer the line is read into.
    pub buffer: Seq<u8>,
    /// Bytes of the line that the buffer holds.
    pub count: int,
    /// The display.
    pub screen: Screen,
}

/// How far a call of `read_line` got.
#[derive(Clone, Copy, Debug, PartialEq, Eq, Structural)]
pub enum ReadLine {
    /// The queue ran empty before the line was complete. The buffer holds
    /// `count` bytes of the line; the call that goes on with the line takes
    /// this count.
    Pending { count: usize },
    /// The line is complete: the buffer holds its `count` bytes and a zero
    /// byte after them.
    Complete { count: usize },
}

impl Line {
    /// The line after one character was typed that is not a line feed. A
    /// backspace takes the last byte back, if there is one. Any other
    /// control character but the tabulator is ignored. Every other character
    /// is appended, cut down to a byte. What changes the line is echoed.
    pub open spec fn typed(self, c: char) -> Line {
        if c == BACKSPACE && self.count > 0 {
            Line {
                buffer: self.buffer.update(self.count - 1, 0),
                count: self.count - 1,
                screen: self.screen.after_write(ERASE@),
            }
        } else if c < ' ' && c != '\t' {
            self
        } else {
            Line {
                buffer: self.buffer.update(self.count, c as u8),
                count: self.count + 1,
                screen: self.screen.after_write(seq![c as u8]),
            }
        }
    }

    /// The line after the line feed that ends it: the line feed is appended
    /// and echoed.
    pub open spec fn ended(self) -> Line {
        Line {
            buffer: self.buffer.update(self.count, 0x0A),
            count: self.count + 1,
            screen: self.screen.after_write(seq![0x0Au8]),
        }
    }

    /// The line with the zero byte after its last byte.
    pub open spec fn terminated(self) -> Line {
        Line { buffer: self.buffer.update(self.count, 0), ..self }
    }

    /// What reading makes of the line when the characters of `keys` are
    /// queued and the line may take `max_len` bytes, the zero byte included:
    /// the line, the characters left in the queue, and whether the line is
    /// complete. Characters are taken from the queue until the line holds a
    /// line feed or `max_len - 1` bytes; a line that gets there is complete
    /// and is terminated. If the queue runs empty before, the line stays as
    /// far as it got.
    pub open spec fn read(self, keys: Seq<char>, max_len: int) -> (Line, Seq<char>, bool)
        decreases keys.len(),
    {
        if self.count >= max_len - 1 {
            (self.terminated(), keys, true)
        } else if keys.len() == 0 {
            (self, keys, false)
        } else if keys[0] == '\n' {
            (self.ended().terminated(), keys.skip(1), true)
        } else {
            self.typed(keys[0]).read(keys.skip(1), max_len)
        }
    }
}

/// Reads a line from the queued characters into `buffer`, echoing it on
/// `terminal`. At most `max_len` bytes of `buffer` are used, the zero byte
/// that ends the line included. `count` is 0 for a new line, and for a line
/// that a call before left pending the count that call returned.
pub fn read_line(
    keys: &mut KeyBuffer,
    buffer: &mut [u8],
    max_len: usize,
    count: usize,
    terminal: &mut Terminal,
) -> (result: ReadLine)
    requires
        1 <= max_len <= old(buffer)@.len(),
        count < max_len,
    ensures
        ({
            let before = Line {
                buffer: old(buffer)@,
                count: count as int,
                screen: old(terminal)@,
            };
            let (line, rest, complete) = before.read(old(keys)@, max_len as int);
            &&& final(buffer)@ == line.buffer
            &&& final(terminal)@ == line.screen
            &&& final(keys)@ == rest
            &&& result == if complete {
                ReadLine::Complete { count: line.count as usize }
            } else {
                ReadLine::Pending { count: line.count as usize }
            }
            &&& 0 <= line.count < max_len
        }),
{
    let mut stored = count;
    let mut ended = false;
    let ghost start = Line { buffer: old(buffer)@, count: count as int, screen: old(terminal)@ };
    while !ended && stored < max_len - 1
        invariant
            1 <= max_len <= buffer@.len(),
            buffer@.len() == old(buffer)@.len(),
            stored < max_len,
            start == (Line { buffer: old(buffer)@, count: count as int, screen: old(terminal)@ }),
            start.read(old(keys)@, max_len as int) == if ended {
                ((Line { buffer: buffer@, count: stored as int, screen: terminal@ }).terminated(), keys@, true)
            } else {
                (Line { buffer: buffer@, count: stored as int, screen: terminal@ }).read(
                    keys@,
                    max_len as int,
                )
            },
        decreases keys@.len() + if ended { 0int } else { 1int },
    {
        let ghost line = Line { buffer: buffer@, count: stored as int, screen: terminal@ };
        let ghost queued = keys@;
        let c = match dequeue_key(keys) {
            Some(c) => c,
            None => {
                assert(queued.len() == 0);
                assert(line.read(queued, max_len as int) == (line, queued, false));
                return ReadLine::Pending { count: stored };
            },
        };
        assert(keys@ =~= queued.skip(1));
        assert(c == queued[0]);

        if c == BACKSPACE && stored > 0 {
            stored -= 1;
            buffer[stored] = 0;
            terminal.write(&ERASE);
        } else if c == '\n' {
            buffer[stored] = 0x0A;
            stored += 1;
            let echo_buf: [u8; 1] = [0x0A];
            assert(echo_buf@ =~= seq![0x0Au8]);
            terminal.write(&echo_buf);
            ended = true;
        } else if c < ' ' && c != '\t' {
        } else {
            let byte = #[verifier::truncate]
            (c as u8);
            buffer[stored] = byte;
            stored += 1;

            let echo_buf: [u8; 1] = [byte];
            assert(echo_buf@ =~= seq![byte]);
            terminal.write(&echo_buf);
        }
        assert(!ended ==> (Line { buffer: buffer@, count: stored as int, screen: terminal@ })
            == line.typed(c));
        assert(ended ==> (Line { buffer: buffer@, count: stored as int, screen: terminal@ })
            == line.ended());
    }

    buffer[stored] = 0;

    ReadLine::Complete { count: stored }
}

/// Filling an empty queue: the first `BUFFER_SIZE - 1` characters offered are
/// queued in order, and every character offered after them is dropped, leaving
/// the queue as it was.
pub proof fn lemma_enqueue_until_full(cs: Seq<char>)
    ensures
        cs.len() <= BUFFER_SIZE - 1 ==> enqueued_all(Seq::empty(), cs) == cs,
        cs.len() >= BUFFER_SIZE - 1 ==> enqueued_all(Seq::empty(), cs) == cs.take(
            BUFFER_SIZE - 1,
        ),
        forall|c: char|
            cs.len() >= BUFFER_SIZE - 1 ==> #[trigger] enqueued(
                enqueued_all(Seq::empty(), cs),
                c,
            ) == enqueued_all(Seq::empty(), cs),
    decreases cs.len(),
{
    if cs.len() > 0 {
        lemma_enqueue_until_full(cs.drop_last());
        if cs.len() <= BUFFER_SIZE - 1 {
            assert(cs.drop_last().push(cs.last()) =~= cs);
        } else {
            assert(cs.drop_last().take(BUFFER_SIZE - 1) =~= cs.take(BUFFER_SIZE - 1));
        }
    }
    if cs.len() == BUFFER_SIZE - 1 {
        assert(cs.take(BUFFER_SIZE - 1) =~= cs);
    }
}

} // verus!
