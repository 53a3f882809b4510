//! Keys and mouse activity, and the bytes they turn into for the child
//! process.

use crate::event::VtState;
use vstd::prelude::*;
use vstd::utf8::encode_scalar;

verus! {

/// The scancode of the control key.
pub const K_CTRL: u8 = 0x1D;

/// The scancode of the left shift key.
pub const K_LEFT_SHIFT: u8 = 0x2A;

/// The scancode of the right shift key.
pub const K_RIGHT_SHIFT: u8 = 0x36;

/// The scancode of the key `0`.
pub const K_0: u8 = 0x0B;

/// The scancode of the key `-`.
pub const K_MINUS: u8 = 0x0C;

/// The scancode of the key `=`.
pub const K_EQUALS: u8 = 0x0D;

/// The scancode of the backspace key.
pub const K_BKSP: u8 = 0x0E;

/// The scancode of the key `C`.
pub const K_C: u8 = 0x2E;

/// The scancode of the key `V`.
pub const K_V: u8 = 0x2F;

/// The scancode of the home key.
pub const K_HOME: u8 = 0x47;

/// The scancode of the up arrow.
pub const K_UP: u8 = 0x48;

/// The scancode of the page up key.
pub const K_PGUP: u8 = 0x49;

/// The scancode of the left arrow.
pub const K_LEFT: u8 = 0x4B;

/// The scancode of the right arrow.
pub const K_RIGHT: u8 = 0x4D;

/// The scancode of the end key.
pub const K_END: u8 = 0x4F;

/// The scancode of the down arrow.
pub const K_DOWN: u8 = 0x50;

/// The scancode of the page down key.
pub const K_PGDN: u8 = 0x51;

/// The scancode of the insert key.
pub const K_INS: u8 = 0x52;

/// The scancode of the delete key.
pub const K_DEL: u8 = 0x53;

/// What the window reports to the engine. Places and sizes are in pixels.
#[derive(Clone, Copy, Debug, PartialEq, Eq, Structural)]
pub enum InputEvent {
    /// A key went down or up.
    Key { character: char, scancode: u8, pressed: bool },
    /// The pointer is at `(x, y)`.
    Mouse { x: i32, y: i32 },
    /// The buttons that are held down now.
    Button { left: bool, middle: bool, right: bool },
    /// The wheel turned.
    Scroll { x: i32, y: i32 },
    /// The window has this size now.
    Resize { width: u32, height: u32 },
    /// Anything else.
    Other,
}

/// What a pressed key does other than sending bytes.
#[derive(Clone, Copy, Debug, PartialEq, Eq, Structural)]
pub enum LocalAction {
    /// Nothing of its own: the key is sent on to the child process.
    Forward,
    /// The cells go back to their first size.
    ResetSize,
    /// The cells shrink.
    Shrink,
    /// The cells grow.
    Grow,
    /// The selected text goes to the clipboard.
    Copy,
    /// The clipboard's text is asked for.
    Paste,
}

/// Who gets the mouse.
#[derive(Clone, Copy, Debug, PartialEq, Eq, Structural)]
pub enum MouseMode {
    /// The engine: the mouse selects text.
    Select,
    /// The child process: the mouse is reported to it, a drag only where
    /// `drag` is set.
    Report { drag: bool },
}

/// The mouse mode that the parser's state asks for.
pub open spec fn mouse_mode_of(state: VtState) -> MouseMode {
    if state.mouse_rxvt {
        MouseMode::Report { drag: state.mouse_btn }
    } else {
        MouseMode::Select
    }
}

/// The mouse mode that the parser's state asks for.
pub fn mouse_mode(state: &VtState) -> (mode: MouseMode)
    ensures
        mode == mouse_mode_of(*state),
{
    if state.mouse_rxvt {
        MouseMode::Report { drag: state.mouse_btn }
    } else {
        MouseMode::Select
    }
}

/// What the key with this scancode does while the modifiers are as given.
/// With control held, `0`, `-` and `=` change the size of the cells; with
/// control and shift held, `C` and `V` copy and paste.
pub open spec fn local_action(ctrl: bool, shift: bool, scancode: u8) -> LocalAction {
    if ctrl && scancode == K_0 {
        LocalAction::ResetSize
    } else if ctrl && scancode == K_MINUS {
        LocalAction::Shrink
    } else if ctrl && scancode == K_EQUALS {
        LocalAction::Grow
    } else if ctrl && shift && scancode == K_C {
        LocalAction::Copy
    } else if ctrl && shift && scancode == K_V {
        LocalAction::Paste
    } else {
        LocalAction::Forward
    }
}

/// What the key with this scancode does while the modifiers are as given.
pub fn key_local(ctrl: bool, shift: bool, scancode: u8) -> (action: LocalAction)
    ensures
        action == local_action(ctrl, shift, scancode),
{
    if ctrl && scancode == K_0 {
        LocalAction::ResetSize
    } else if ctrl && scancode == K_MINUS {
        LocalAction::Shrink
    } else if ctrl && scancode == K_EQUALS {
        LocalAction::Grow
    } else if ctrl && shift && scancode == K_C {
        LocalAction::Copy
    } else if ctrl && shift && scancode == K_V {
        LocalAction::Paste
    } else {
        LocalAction::Forward
    }
}

/// The escape sequence of a navigation key, if the scancode is one.
pub open spec fn navigation_sequence(scancode: u8) -> Option<Seq<u8>> {
    if scancode == K_BKSP {
        Some(seq![0x7Fu8])
    } else if scancode == K_HOME {
        Some(seq![0x1Bu8, 0x5B, 0x48])
    } else if scancode == K_UP {
        Some(seq![0x1Bu8, 0x5B, 0x41])
    } else if scancode == K_PGUP {
        Some(seq![0x1Bu8, 0x5B, 0x35, 0x7E])
    } else if scancode == K_LEFT {
        Some(seq![0x1Bu8, 0x5B, 0x44])
    } else if scancode == K_RIGHT {
        Some(seq![0x1Bu8, 0x5B, 0x43])
    } else if scancode == K_END {
        Some(seq![0x1Bu8, 0x5B, 0x46])
    } else if scancode == K_DOWN {
        Some(seq![0x1Bu8, 0x5B, 0x42])
    } else if scancode == K_PGDN {
        Some(seq![0x1Bu8, 0x5B, 0x36, 0x7E])
    } else if scancode == K_INS {
        Some(seq![0x1Bu8, 0x5B, 0x32, 0x7E])
    } else if scancode == K_DEL {
        Some(seq![0x1Bu8, 0x5B, 0x33, 0x7E])
    } else {
        None
    }
}

/// The bytes of the character of a key that is no navigation key. With
/// control held a letter gives its control byte and anything else gives
/// nothing; without it the character is sent as UTF-8, and `'\0'` gives
/// nothing.
pub open spec fn character_sequence(ctrl: bool, character: char) -> Seq<u8> {
    let code = character as u32;
    if ctrl {
        if 0x41 <= code <= 0x5A {
            seq![(code - 0x41 + 1) as u8]
        } else if 0x61 <= code <= 0x7A {
            seq![(code - 0x61 + 1) as u8]
        } else {
            Seq::empty()
        }
    } else if code == 0 {
        Seq::empty()
    } else {
        encode_scalar(code)
    }
}

/// The bytes that a pressed key sends to the child process.
pub open spec fn key_sequence(ctrl: bool, character: char, scancode: u8) -> Seq<u8> {
    match navigation_sequence(scancode) {
        Some(sequence) => sequence,
        None => character_sequence(ctrl, character),
    }
}

/// Appends the UTF-8 encoding of `c` to `buf`.
pub fn push_utf8(buf: &mut Vec<u8>, c: char)
    ensures
        final(buf)@ == old(buf)@ + encode_scalar(c as u32),
{
    let code: u32 = c as u32;
    proof {
        vstd::utf8::char_is_scalar(c);
    }
    if code <= 0x7F {
        assert((code & 0x7F) < 0x100) by (bit_vector);
        buf.push((code & 0x7F) as u8);
        assert(buf@ =~= old(buf)@ + encode_scalar(code));
    } else if code <= 0x7FF {
        assert(((code >> 6) & 0x1F) < 0x100) by (bit_vector);
        assert((code & 0x3F) < 0x100) by (bit_vector);
        buf.push(0xC0 | ((code >> 6) & 0x1F) as u8);
        buf.push(0x80 | (code & 0x3F) as u8);
        assert(buf@ =~= old(buf)@ + encode_scalar(code));
    } else if code <= 0xFFFF {
        assert(((code >> 12) & 0x0F) < 0x100) by (bit_vector);
        assert(((code >> 6) & 0x3F) < 0x100) by (bit_vector);
        assert((code & 0x3F) < 0x100) by (bit_vector);
        buf.push(0xE0 | ((code >> 12) & 0x0F) as u8);
        buf.push(0x80 | ((code >> 6) & 0x3F) as u8);
        buf.push(0x80 | (code & 0x3F) as u8);
        assert(buf@ =~= old(buf)@ + encode_scalar(code));
    } else {
        assert(((code >> 18) & 0x7) < 0x100) by (bit_vector);
        assert(((code >> 12) & 0x3F) < 0x100) by (bit_vector);
        assert(((code >> 6) & 0x3F) < 0x100) by (bit_vector);
        assert((code & 0x3F) < 0x100) by (bit_vector);
        buf.push(0xF0 | ((code >> 18) & 0x7) as u8);
        buf.push(0x80 | ((code >> 12) & 0x3F) as u8);
        buf.push(0x80 | ((code >> 6) & 0x3F) as u8);
        buf.push(0x80 | (code & 0x3F) as u8);
        assert(buf@ =~= old(buf)@ + encode_scalar(code));
    }
}

/// Appends to `buf` the bytes that a pressed key sends to the child process.
pub fn push_key(buf: &mut Vec<u8>, ctrl: bool, character: char, scancode: u8)
    ensures
        final(buf)@ == old(buf)@ + key_sequence(ctrl, character, scancode),
{
    let code: u32 = character as u32;
    if scancode == K_BKSP {
        buf.push(0x7F);
    } else if scancode == K_HOME {
        push3(buf, 0x1B, 0x5B, 0x48);
    } else if scancode == K_UP {
        push3(buf, 0x1B, 0x5B, 0x41);
    } else if scancode == K_PGUP {
        push3(buf, 0x1B, 0x5B, 0x35);
        buf.push(0x7E);
    } else if scancode == K_LEFT {
        push3(buf, 0x1B, 0x5B, 0x44);
    } else if scancode == K_RIGHT {
        push3(buf, 0x1B, 0x5B, 0x43);
    } else if scancode == K_END {
        push3(buf, 0x1B, 0x5B, 0x46);
    } else if scancode == K_DOWN {
        push3(buf, 0x1B, 0x5B, 0x42);
    } else if scancode == K_PGDN {
        push3(buf, 0x1B, 0x5B, 0x36);
        buf.push(0x7E);
    } else if scancode == K_INS {
        push3(buf, 0x1B, 0x5B, 0x32);
        buf.push(0x7E);
    } else if scancode == K_DEL {
        push3(buf, 0x1B, 0x5B, 0x33);
        buf.push(0x7E);
    } else if ctrl {
        if 0x41 <= code && code <= 0x5A {
            buf.push((code - 0x41 + 1) as u8);
        } else if 0x61 <= code && code <= 0x7A {
            buf.push((code - 0x61 + 1) as u8);
        }
    } else if code != 0 {
        push_utf8(buf, character);
    }
    assert(buf@ =~= old(buf)@ + key_sequence(ctrl, character, scancode));
}

/// Appends three bytes to `buf`.
fn push3(buf: &mut Vec<u8>, a: u8, b: u8, c: u8)
    ensures
        final(buf)@ == old(buf)@ + seq![a, b, c],
{
    buf.push(a);
    buf.push(b);
    buf.push(c);
    assert(buf@ =~= old(buf)@ + seq![a, b, c]);
}

/// The decimal digits of `n`, as ASCII.
pub open spec fn decimal(n: nat) -> Seq<u8>
    decreases n,
{
    if n < 10 {
        seq![(0x30 + n) as u8]
    } else {
        decimal(n / 10).push((0x30 + n % 10) as u8)
    }
}

/// Appends the decimal digits of `n` to `buf`.
pub fn push_decimal(buf: &mut Vec<u8>, n: u16)
    ensures
        final(buf)@ == old(buf)@ + decimal(n as nat),
    decreases n,
{
    if n >= 10 {
        push_decimal(buf, n / 10);
    }
    buf.push(0x30 + (n % 10) as u8);
    assert(buf@ =~= old(buf)@ + decimal(n as nat));
}

/// The report of a mouse event to the child process: `ESC [ <`, the code of
/// the event, the column and the row of the pointer, each in decimal and
/// parted by `;`, and `M`, or `m` for the release of a button.
pub open spec fn mouse_report(code: u8, x: u16, y: u16, release: bool) -> Seq<u8> {
    seq![0x1Bu8, 0x5B, 0x3C] + decimal(code as nat) + seq![0x3Bu8] + decimal(x as nat) + seq![
        0x3Bu8,
    ] + decimal(y as nat) + seq![
        if release {
            0x6Du8
        } else {
            0x4Du8
        },
    ]
}

/// Appends the report of a mouse event to `buf`.
pub fn push_mouse_report(buf: &mut Vec<u8>, code: u8, x: u16, y: u16, release: bool)
    ensures
        final(buf)@ == old(buf)@ + mouse_report(code, x, y, release),
{
    push3(buf, 0x1B, 0x5B, 0x3C);
    push_decimal(buf, code as u16);
    buf.push(0x3B);
    push_decimal(buf, x);
    buf.push(0x3B);
    push_decimal(buf, y);
    buf.push(
        if release {
            0x6D
        } else {
            0x4D
        },
    );
    assert(buf@ =~= old(buf)@ + mouse_report(code, x, y, release));
}

} // verus!
