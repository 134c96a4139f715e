//! Key presses, as the session reads them.

use vstd::prelude::*;

verus! {

/// The key that was pressed.
#[derive(Debug, Clone, Copy, PartialEq, Eq, Structural)]
pub enum KeyCode {
    Backspace,
    Enter,
    Left,
    Right,
    Up,
    Down,
    Home,
    End,
    PageUp,
    PageDown,
    Esc,
    Char(char),
    /// Any key that the session gives no meaning to.
    Other,
}

/// A key press: the key, and whether the control key was held with it.
#[derive(Debug, Clone, Copy, PartialEq, Eq, Structural)]
pub struct KeyEvent {
    pub code: KeyCode,
    pub control: bool,
}

/// The value of a decimal digit, if `c` is one.
pub open spec fn digit_of(c: char) -> Option<usize> {
    if '0' <= c && c <= '9' {
        Some((c as u32 - '0' as u32) as usize)
    } else {
        None
    }
}

/// The sum of two counts, capped at the largest count that fits.
pub open spec fn capped_add(a: int, b: int) -> usize {
    if a + b > usize::MAX {
        usize::MAX
    } else {
        (a + b) as usize
    }
}

/// The product of two counts, capped at the largest count that fits.
pub open spec fn capped_mul(a: int, b: int) -> usize {
    if a * b > usize::MAX {
        usize::MAX
    } else {
        (a * b) as usize
    }
}

/// The repeat count once the digit `d` is typed after it.
pub open spec fn with_digit(count: Option<usize>, d: usize) -> usize {
    let current: int = match count {
        Some(n) => n as int,
        None => 0,
    };
    capped_add(capped_mul(current, 10) as int, d as int)
}

impl KeyEvent {
    /// A key pressed without the control key.
    pub fn plain(code: KeyCode) -> (r: Self)
        ensures
            r == (KeyEvent { code, control: false }),
    {
        KeyEvent { code, control: false }
    }

    /// A character key pressed without the control key.
    pub fn char(c: char) -> (r: Self)
        ensures
            r == (KeyEvent { code: KeyCode::Char(c), control: false }),
    {
        KeyEvent { code: KeyCode::Char(c), control: false }
    }

    /// The digit that the key types, if it types one.
    pub open spec fn digit(self) -> Option<usize> {
        match self.code {
            KeyCode::Char(c) => digit_of(c),
            _ => None,
        }
    }

    /// The digit that the key types, if it types one.
    pub fn as_digit(&self) -> (r: Option<usize>)
        ensures
            r == self.digit(),
            r matches Some(d) ==> d <= 9,
    {
        match self.code {
            KeyCode::Char(c) => {
                if '0' <= c && c <= '9' {
                    Some((c as u32 - '0' as u32) as usize)
                } else {
                    None
                }
            },
            _ => None,
        }
    }
}

/// `a + b`, capped.
pub fn add_capped(a: usize, b: usize) -> (r: usize)
    ensures
        r == capped_add(a as int, b as int),
{
    if a > usize::MAX - b {
        usize::MAX
    } else {
        a + b
    }
}

/// `a * 10`, capped.
pub fn times_ten_capped(a: usize) -> (r: usize)
    ensures
        r == capped_mul(a as int, 10),
{
    if a > usize::MAX / 10 {
        usize::MAX
    } else {
        a * 10
    }
}

/// `10 * a`, capped.
pub fn ten_times_capped(a: usize) -> (r: usize)
    ensures
        r == capped_mul(10, a as int),
{
    if a > usize::MAX / 10 {
        usize::MAX
    } else {
        10 * a
    }
}

/// The repeat count once the digit `d` is typed after it.
pub fn push_digit(count: Option<usize>, d: usize) -> (r: usize)
    ensures
        r == with_digit(count, d),
{
    let current = match count {
        Some(n) => n,
        None => 0,
    };
    add_capped(times_ten_capped(current), d)
}

} // verus!
