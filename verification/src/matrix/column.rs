use crate::matrix::character::older;
use crate::matrix::character::MatrixChar;
use rand::Rng;
use vstd::prelude::*;

verus! {

/// The age at which a glyph leaves its column.
pub const MAX_TRAIL_LENGTH: usize = 15;

/// `Rng::random_range` of the `rand` crate on the thread's generator
/// (`rand::rng`), over the whole numbers from `low` to `high`: some number in
/// that range. Which one differs from call to call.
#[verifier::external_body]
pub(crate) fn random_in(low: usize, high: usize) -> (r: usize)
    requires
        low <= high,
    ensures
        low <= r <= high,
{
    rand::rng().random_range(low..=high)
}

/// One falling column of glyphs, the youngest first.
#[derive(Debug)]
pub struct MatrixColumn {
    pub chars: Vec<MatrixChar>,
    /// The number of ticks between two steps of the column.
    pub speed: u8,
    /// The number of ticks since the last step.
    pub counter: u8,
    /// The brightness of the column, in thousandths.
    pub intensity: u16,
    pub max_trail_length: usize,
}

/// What a step makes of the glyphs `before` and a new glyph `fresh`: the new
/// glyph first, then the old ones, each one step older and none leading.
pub open spec fn stepped(before: Seq<MatrixChar>, fresh: char) -> Seq<MatrixChar> {
    Seq::new(
        before.len() + 1,
        |i: int|
            if i == 0 {
                MatrixChar { character: fresh, age: 1, is_head: false }
            } else {
                MatrixChar {
                    character: before[i - 1].character,
                    age: older(before[i - 1].age),
                    is_head: false,
                }
            },
    )
}

/// The glyphs that have not reached `max_age`, in order.
pub open spec fn unexpired(chars: Seq<MatrixChar>, max_age: u8) -> Seq<MatrixChar>
    decreases chars.len(),
{
    if chars.len() == 0 {
        Seq::empty()
    } else if chars.last().age >= max_age {
        unexpired(chars.drop_last(), max_age)
    } else {
        unexpired(chars.drop_last(), max_age).push(chars.last())
    }
}

/// Whether `after` is what one tick makes of the column `before`, with
/// `glyphs` to draw from. With no glyphs the column stands still. Else the
/// column waits while its counter, one up, is below its speed, and only the
/// counter moves; once the counter reaches the speed it starts anew, and the
/// column takes a step with some glyph of `glyphs`: that glyph comes first,
/// every glyph is one step older, and those that have reached the greatest
/// age are gone. Only a step may change the intensity, to three tenths at
/// least and less than one.
pub open spec fn ticked(before: MatrixColumn, after: MatrixColumn, glyphs: Seq<char>) -> bool {
    if glyphs.len() == 0 {
        after == before
    } else if before.counter + 1 < before.speed {
        &&& after.counter == before.counter + 1
        &&& after.chars == before.chars
        &&& after.speed == before.speed
        &&& after.intensity == before.intensity
        &&& after.max_trail_length == before.max_trail_length
    } else {
        &&& after.counter == 0
        &&& after.speed == before.speed
        &&& after.max_trail_length == before.max_trail_length
        &&& after.intensity == before.intensity || 300 <= after.intensity < 1000
        &&& exists|fresh: char|
            glyphs.contains(fresh) && after.chars@ == #[trigger] unexpired(
                stepped(before.chars@, fresh),
                MAX_TRAIL_LENGTH as u8,
            )
    }
}

impl MatrixColumn {
    /// The number of glyphs of a new column that is asked to have
    /// `initial_length` of them: as many, but 255 at most, and none where
    /// there are no glyphs to draw from.
    pub open spec fn initial_len(initial_length: usize, glyphs: int) -> int {
        if glyphs == 0 {
            0
        } else if initial_length > 255 {
            255
        } else {
            initial_length as int
        }
    }

    /// A column of glyphs drawn from `matrix_chars`, the first leading, each
    /// one step older than the one before it.
    pub fn new(initial_length: usize, matrix_chars: &Vec<char>) -> (r: Self)
        ensures
            r.max_trail_length == MAX_TRAIL_LENGTH,
            r.chars@.len() == Self::initial_len(initial_length, matrix_chars@.len() as int),
            forall|i: int|
                0 <= i < r.chars@.len() ==> (#[trigger] r.chars@[i]).age == i && r.chars@[i].is_head
                    == (i == 0) && matrix_chars@.contains(r.chars@[i].character),
            2 <= r.speed <= 6,
            r.counter < 15,
            700 <= r.intensity < 1000,
    {
        let count: usize = if matrix_chars.len() == 0 {
            0
        } else if initial_length > 255 {
            255
        } else {
            initial_length
        };
        let mut initial_chars: Vec<MatrixChar> = Vec::new();
        let mut i: usize = 0;
        while i < count
            invariant
                0 <= i <= count <= 255,
                count > 0 ==> matrix_chars.len() > 0,
                initial_chars@.len() == i,
                forall|k: int|
                    0 <= k < i ==> (#[trigger] initial_chars@[k]).age == k
                        && initial_chars@[k].is_head == (k == 0) && matrix_chars@.contains(
                        initial_chars@[k].character,
                    ),
            decreases count - i,
        {
            let random_char = matrix_chars[random_in(0, matrix_chars.len() - 1)];
            let mut glyph = MatrixChar::new_with_age(random_char, i as u8);
            if i == 0 {
                glyph.mark_as_head();
            }
            initial_chars.push(glyph);
            i += 1;
        }
        Self {
            chars: initial_chars,
            speed: random_in(2, 6) as u8,
            counter: random_in(0, 14) as u8,
            intensity: random_in(700, 999) as u16,
            max_trail_length: MAX_TRAIL_LENGTH,
        }
    }

    /// One tick. The column waits until its counter reaches its speed; then
    /// it takes a step: a new glyph drawn from `matrix_chars` comes first,
    /// every glyph grows one step older, and those that have reached the
    /// greatest age are gone. Now and then the intensity changes. With no
    /// glyphs to draw from the column stands still.
    pub fn update(&mut self, matrix_chars: &Vec<char>)
        ensures
            ticked(*old(self), *final(self), matrix_chars@),
    {
        if matrix_chars.len() == 0 {
            return ;
        }
        let next: u16 = self.counter as u16 + 1;
        if next < self.speed as u16 {
            self.counter = next as u8;
            return ;
        }
        self.counter = 0;
        let random_char = matrix_chars[random_in(0, matrix_chars.len() - 1)];
        let ghost target = stepped(old(self).chars@, random_char);
        let mut kept: Vec<MatrixChar> = Vec::new();
        let mut fresh = MatrixChar::new(random_char);
        fresh.age_character();
        assert(fresh == target[0]);
        kept.push(fresh);
        proof {
            let one = target.take(1);
            assert(one.last() == target[0]);
            assert(one.drop_last() =~= Seq::empty());
            assert(unexpired(one.drop_last(), MAX_TRAIL_LENGTH as u8) =~= Seq::empty());
            assert(kept@ =~= unexpired(one, MAX_TRAIL_LENGTH as u8));
        }
        let mut i: usize = 0;
        while i < self.chars.len()
            invariant
                0 <= i <= self.chars.len(),
                self.chars == old(self).chars,
                matrix_chars.len() > 0,
                target == stepped(old(self).chars@, random_char),
                kept@ == unexpired(target.take(i + 1), MAX_TRAIL_LENGTH as u8),
            decreases self.chars.len() - i,
        {
            let glyph = self.chars[i];
            proof {
                let head = target.take(i + 2);
                assert(head.drop_last() =~= target.take(i + 1));
                assert(head.last() == target[i + 1]);
            }
            if glyph.age < MAX_TRAIL_LENGTH as u8 - 1 {
                let mut aged = glyph;
                aged.age_character();
                kept.push(aged);
            }
            i += 1;
        }
        assert(target.take(i + 1) =~= target);
        self.chars = kept;
        assert(self.chars@ == unexpired(
            stepped(old(self).chars@, random_char),
            MAX_TRAIL_LENGTH as u8,
        ));
        if random_in(0, 99) < 5 {
            self.intensity = random_in(300, 999) as u16;
        }
        assert(matrix_chars@.contains(random_char));
    }

    /// The glyph in row `row`, where the column reaches that far.
    pub fn get_char_at(&self, row: usize) -> (r: Option<&MatrixChar>)
        ensures
            match r {
                Some(c) => row < self.chars@.len() && *c == self.chars@[row as int],
                None => row >= self.chars@.len(),
            },
    {
        if row < self.chars.len() {
            Some(&self.chars[row])
        } else {
            None
        }
    }

    /// The brightness of the column, in thousandths.
    pub fn intensity(&self) -> (r: u16)
        ensures
            r == self.intensity,
    {
        self.intensity
    }

    /// The number of glyphs in the column.
    pub fn len(&self) -> (r: usize)
        ensures
            r == self.chars@.len(),
    {
        self.chars.len()
    }

    /// Whether the column has no glyphs.
    pub fn is_empty(&self) -> (r: bool)
        ensures
            r == (self.chars@.len() == 0),
    {
        self.chars.len() == 0
    }
}

} // verus!
