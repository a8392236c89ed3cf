//! Keys as the page handlers see them.

use vstd::prelude::*;

verus! {

/// A key press: the key and whether Shift, or Control/Alt, were held.
#[derive(Clone, Copy, PartialEq, Eq, Structural, Debug)]
pub struct KeyPress {
    pub key: Key,
    pub shift: bool,
    pub control_or_alt: bool,
}

/// The keys the pages react to.
#[derive(Clone, Copy, PartialEq, Eq, Structural, Debug)]
pub enum Key {
    Up,
    Down,
    Left,
    Right,
    Enter,
    Esc,
    Backspace,
    Char(char),
    Other,
}

/// Up arrow or `k`.
pub open spec fn is_up(k: Key) -> bool {
    k == Key::Up || k == Key::Char('k')
}

/// Down arrow or `j`.
pub open spec fn is_down(k: Key) -> bool {
    k == Key::Down || k == Key::Char('j')
}

/// Left arrow or `h`.
pub open spec fn is_left(k: Key) -> bool {
    k == Key::Left || k == Key::Char('h')
}

/// Right arrow or `l`.
pub open spec fn is_right(k: Key) -> bool {
    k == Key::Right || k == Key::Char('l')
}

/// Whether the key is the up arrow or `k`.
pub fn key_is_up(k: Key) -> (b: bool)
    ensures
        b == is_up(k),
{
    match k {
        Key::Up => true,
        Key::Char(c) => c == 'k',
        _ => false,
    }
}

/// Whether the key is the down arrow or `j`.
pub fn key_is_down(k: Key) -> (b: bool)
    ensures
        b == is_down(k),
{
    match k {
        Key::Down => true,
        Key::Char(c) => c == 'j',
        _ => false,
    }
}

/// Whether the key is the left arrow or `h`.
pub fn key_is_left(k: Key) -> (b: bool)
    ensures
        b == is_left(k),
{
    match k {
        Key::Left => true,
        Key::Char(c) => c == 'h',
        _ => false,
    }
}

/// Whether the key is the right arrow or `l`.
pub fn key_is_right(k: Key) -> (b: bool)
    ensures
        b == is_right(k),
{
    match k {
        Key::Right => true,
        Key::Char(c) => c == 'l',
        _ => false,
    }
}

/// Whether the key is the given character.
pub fn key_is_char(k: Key, c: char) -> (b: bool)
    ensures
        b == (k == Key::Char(c)),
{
    match k {
        Key::Char(x) => x == c,
        _ => false,
    }
}

} // verus!
