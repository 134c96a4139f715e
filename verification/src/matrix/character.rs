use vstd::prelude::*;

verus! {

/// One glyph of a falling column: its character, the number of steps it has
/// been on the screen, and whether it leads its column.
#[derive(Debug, Clone, Copy, PartialEq, Eq, Structural)]
pub struct MatrixChar {
    pub character: char,
    pub age: u8,
    pub is_head: bool,
}

/// An age one step on; the greatest age that can be counted stays.
pub open spec fn older(age: u8) -> u8 {
    if age < u8::MAX {
        (age + 1) as u8
    } else {
        age
    }
}

impl MatrixChar {
    /// A glyph that has just appeared, at the head of its column.
    pub fn new(character: char) -> (r: Self)
        ensures
            r == (MatrixChar { character, age: 0, is_head: true }),
    {
        Self { character, age: 0, is_head: true }
    }

    /// A glyph of the given age, in the trail of its column.
    pub fn new_with_age(character: char, age: u8) -> (r: Self)
        ensures
            r == (MatrixChar { character, age, is_head: false }),
    {
        Self { character, age, is_head: false }
    }

    /// Makes the glyph one step older; it then leads no more. The greatest
    /// age that can be counted stays.
    pub fn age_character(&mut self)
        ensures
            *final(self) == (MatrixChar { age: older(old(self).age), is_head: false, ..*old(self) }),
    {
        if self.age < u8::MAX {
            self.age += 1;
        }
        self.is_head = false;
    }

    /// Makes the glyph the one that leads its column.
    pub fn mark_as_head(&mut self)
        ensures
            *final(self) == (MatrixChar { is_head: true, ..*old(self) }),
    {
        self.is_head = true;
    }

    /// Makes the glyph one of the trail of its column.
    pub fn mark_as_tail(&mut self)
        ensures
            *final(self) == (MatrixChar { is_head: false, ..*old(self) }),
    {
        self.is_head = false;
    }

    /// Whether the glyph has reached the age at which it leaves the screen.
    pub fn is_expired(&self, max_age: u8) -> (r: bool)
        ensures
            r == (self.age >= max_age),
    {
        self.age >= max_age
    }
}

} // verus!
