//! Keyboard input encoding: the byte sequence a terminal expects for
//! each key a renderer reports, ready to be handed to the session's
//! write path.

use vstd::prelude::*;
use vstd::string::StringSliceAdditionalSpecFns;
use vstd::utf8::encode_utf8;

verus! {

/// A key press as the renderer reports it: either the text it
/// produced, or one of the recognized editing and function keys.
pub enum KeyInput {
    /// A key that produced text.
    Character(String),
    Enter,
    Backspace,
    Tab,
    Escape,
    ArrowUp,
    ArrowDown,
    ArrowRight,
    ArrowLeft,
    Home,
    End,
    PageUp,
    PageDown,
    Insert,
    Delete,
    F1,
    F2,
    F3,
    F4,
    F5,
    F6,
    F7,
    F8,
    F9,
    F10,
    F11,
    F12,
    /// Anything else; it produces no bytes.
    Other,
}

/// The bytes a key press sends to the shell: control-lowercase maps
/// to the control byte; text goes through UTF-8; the editing and
/// function keys send their escape sequences; anything else sends
/// nothing.
pub open spec fn key_bytes(key: KeyInput, ctrl: bool) -> Seq<u8> {
    if ctrl && (match key {
        KeyInput::Character(c) => c@.len() > 0 && 'a' <= c@[0] && c@[0] <= 'z',
        _ => false,
    }) {
        match key {
            KeyInput::Character(c) => seq![((c@[0] as u8) - 96) as u8],
            _ => Seq::empty(),
        }
    } else {
        match key {
            KeyInput::Character(c) => encode_utf8(c@),
            KeyInput::Enter => seq![13u8],
            KeyInput::Backspace => seq![0x7fu8],
            KeyInput::Tab => seq![9u8],
            KeyInput::Escape => seq![0x1bu8],
            KeyInput::ArrowUp => seq![0x1bu8, 0x5bu8, 0x41u8],
            KeyInput::ArrowDown => seq![0x1bu8, 0x5bu8, 0x42u8],
            KeyInput::ArrowRight => seq![0x1bu8, 0x5bu8, 0x43u8],
            KeyInput::ArrowLeft => seq![0x1bu8, 0x5bu8, 0x44u8],
            KeyInput::Home => seq![0x1bu8, 0x5bu8, 0x48u8],
            KeyInput::End => seq![0x1bu8, 0x5bu8, 0x46u8],
            KeyInput::PageUp => seq![0x1bu8, 0x5bu8, 0x35u8, 0x7eu8],
            KeyInput::PageDown => seq![0x1bu8, 0x5bu8, 0x36u8, 0x7eu8],
            KeyInput::Insert => seq![0x1bu8, 0x5bu8, 0x32u8, 0x7eu8],
            KeyInput::Delete => seq![0x1bu8, 0x5bu8, 0x33u8, 0x7eu8],
            KeyInput::F1 => seq![0x1bu8, 0x4fu8, 0x50u8],
            KeyInput::F2 => seq![0x1bu8, 0x4fu8, 0x51u8],
            KeyInput::F3 => seq![0x1bu8, 0x4fu8, 0x52u8],
            KeyInput::F4 => seq![0x1bu8, 0x4fu8, 0x53u8],
            KeyInput::F5 => seq![0x1bu8, 0x5bu8, 0x31u8, 0x35u8, 0x7eu8],
            KeyInput::F6 => seq![0x1bu8, 0x5bu8, 0x31u8, 0x37u8, 0x7eu8],
            KeyInput::F7 => seq![0x1bu8, 0x5bu8, 0x31u8, 0x38u8, 0x7eu8],
            KeyInput::F8 => seq![0x1bu8, 0x5bu8, 0x31u8, 0x39u8, 0x7eu8],
            KeyInput::F9 => seq![0x1bu8, 0x5bu8, 0x32u8, 0x30u8, 0x7eu8],
            KeyInput::F10 => seq![0x1bu8, 0x5bu8, 0x32u8, 0x31u8, 0x7eu8],
            KeyInput::F11 => seq![0x1bu8, 0x5bu8, 0x32u8, 0x33u8, 0x7eu8],
            KeyInput::F12 => seq![0x1bu8, 0x5bu8, 0x32u8, 0x34u8, 0x7eu8],
            KeyInput::Other => Seq::empty(),
        }
    }
}

/// Turn three bytes into a fresh vector.
fn bytes3(a: u8, b: u8, c: u8) -> (r: Vec<u8>)
    ensures
        r@ == seq![a, b, c],
{
    let mut r: Vec<u8> = Vec::new();
    r.push(a);
    r.push(b);
    r.push(c);
    proof {
        assert(r@ =~= seq![a, b, c]);
    }
    r
}

/// Turn four bytes into a fresh vector.
fn bytes4(a: u8, b: u8, c: u8, d: u8) -> (r: Vec<u8>)
    ensures
        r@ == seq![a, b, c, d],
{
    let mut r: Vec<u8> = Vec::new();
    r.push(a);
    r.push(b);
    r.push(c);
    r.push(d);
    proof {
        assert(r@ =~= seq![a, b, c, d]);
    }
    r
}

/// Turn five bytes into a fresh vector.
fn bytes5(a: u8, b: u8, c: u8, d: u8, e: u8) -> (r: Vec<u8>)
    ensures
        r@ == seq![a, b, c, d, e],
{
    let mut r: Vec<u8> = Vec::new();
    r.push(a);
    r.push(b);
    r.push(c);
    r.push(d);
    r.push(e);
    proof {
        assert(r@ =~= seq![a, b, c, d, e]);
    }
    r
}

/// Turn one byte into a fresh vector.
fn bytes1(a: u8) -> (r: Vec<u8>)
    ensures
        r@ == seq![a],
{
    let mut r: Vec<u8> = Vec::new();
    r.push(a);
    proof {
        assert(r@ =~= seq![a]);
    }
    r
}

/// Encode a key press as the bytes the shell receives; see
/// [`key_bytes`].
pub fn key_to_bytes(key: &KeyInput, ctrl: bool) -> (r: Vec<u8>)
    ensures
        r@ == key_bytes(*key, ctrl),
{
    if ctrl {
        if let KeyInput::Character(c) = key {
            let text = c.as_str();
            if text.unicode_len() > 0 {
                let ch = text.get_char(0);
                if 'a' <= ch && ch <= 'z' {
                    return bytes1((ch as u8) - 96);
                }
            }
        }
    }
    match key {
        KeyInput::Character(c) => c.as_str().as_bytes_vec(),
        KeyInput::Enter => bytes1(13),
        KeyInput::Backspace => bytes1(0x7f),
        KeyInput::Tab => bytes1(9),
        KeyInput::Escape => bytes1(0x1b),
        KeyInput::ArrowUp => bytes3(0x1b, 0x5b, 0x41),
        KeyInput::ArrowDown => bytes3(0x1b, 0x5b, 0x42),
        KeyInput::ArrowRight => bytes3(0x1b, 0x5b, 0x43),
        KeyInput::ArrowLeft => bytes3(0x1b, 0x5b, 0x44),
        KeyInput::Home => bytes3(0x1b, 0x5b, 0x48),
        KeyInput::End => bytes3(0x1b, 0x5b, 0x46),
        KeyInput::PageUp => bytes4(0x1b, 0x5b, 0x35, 0x7e),
        KeyInput::PageDown => bytes4(0x1b, 0x5b, 0x36, 0x7e),
        KeyInput::Insert => bytes4(0x1b, 0x5b, 0x32, 0x7e),
        KeyInput::Delete => bytes4(0x1b, 0x5b, 0x33, 0x7e),
        KeyInput::F1 => bytes3(0x1b, 0x4f, 0x50),
        KeyInput::F2 => bytes3(0x1b, 0x4f, 0x51),
        KeyInput::F3 => bytes3(0x1b, 0x4f, 0x52),
        KeyInput::F4 => bytes3(0x1b, 0x4f, 0x53),
        KeyInput::F5 => bytes5(0x1b, 0x5b, 0x31, 0x35, 0x7e),
        KeyInput::F6 => bytes5(0x1b, 0x5b, 0x31, 0x37, 0x7e),
        KeyInput::F7 => bytes5(0x1b, 0x5b, 0x31, 0x38, 0x7e),
        KeyInput::F8 => bytes5(0x1b, 0x5b, 0x31, 0x39, 0x7e),
        KeyInput::F9 => bytes5(0x1b, 0x5b, 0x32, 0x30, 0x7e),
        KeyInput::F10 => bytes5(0x1b, 0x5b, 0x32, 0x31, 0x7e),
        KeyInput::F11 => bytes5(0x1b, 0x5b, 0x32, 0x33, 0x7e),
        KeyInput::F12 => bytes5(0x1b, 0x5b, 0x32, 0x34, 0x7e),
        KeyInput::Other => Vec::new(),
    }
}

} // verus!
