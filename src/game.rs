//! The roll log: every ball of a game, in the order it was rolled.

use vstd::prelude::*;

use crate::frame::{frame_fits, Frame};
use crate::walk::{frame_start, frames_total, game_score, is_complete, lemma_frames_total_bounded, FRAMES};

verus! {

/// A game of ten-pin bowling, recorded as the pin count of each roll.
#[derive(Debug)]
pub struct Game {
    rolls: Vec<usize>,
}

impl View for Game {
    type V = Seq<usize>;

    closed spec fn view(&self) -> Seq<usize> {
        self.rolls@
    }
}

impl Game {
    /// The log never holds more rolls than a `usize` can count.
    pub proof fn lemma_len_fits(&self)
        ensures
            self@.len() <= usize::MAX,
    {
        assert(self.rolls.len() == self.rolls@.len());
    }

    /// A game with no rolls yet.
    pub fn new() -> (g: Game)
        ensures
            g@ == Seq::<usize>::empty(),
    {
        Game { rolls: Vec::new() }
    }

    /// Records one roll of `pins` pins. The count is not checked against
    /// the rolls before it.
    pub fn roll(&mut self, pins: usize)
        ensures
            final(self)@ == old(self)@.push(pins),
    {
        self.rolls.push(pins);
    }

    /// The pin count of the roll at position `index`.
    pub fn pins_at(&self, index: usize) -> (pins: usize)
        requires
            index < self@.len(),
        ensures
            pins == self@[index as int],
    {
        self.rolls[index]
    }

    /// The game's ten frames, in order; each starts where the one before
    /// it ends.
    pub fn frames(&self) -> (fs: Vec<Frame<'_>>)
        requires
            is_complete(self@),
        ensures
            fs@.len() == FRAMES,
            forall|k: int|
                0 <= k < FRAMES ==> (#[trigger] fs@[k]).start() == frame_start(self@, k as nat)
                    && fs@[k].rolls() == self@,
    {
        let mut fs: Vec<Frame<'_>> = Vec::new();
        let mut current = Frame::new(self);
        let mut count: usize = 0;
        while count < FRAMES
            invariant
                is_complete(self@),
                count <= FRAMES,
                fs@.len() == count,
                current.start() == frame_start(self@, count as nat),
                current.rolls() == self@,
                forall|k: int|
                    0 <= k < count ==> (#[trigger] fs@[k]).start() == frame_start(self@, k as nat)
                        && fs@[k].rolls() == self@,
            decreases FRAMES - count,
        {
            assert(frame_fits(self@, frame_start(self@, count as nat)));
            let next = current.next();
            fs.push(current);
            current = next;
            count = count + 1;
        }
        fs
    }

    /// The game's total score: the sum of its ten frames' scores, each
    /// with its bonus rolls.
    pub fn score(&self) -> (total: usize)
        requires
            is_complete(self@),
        ensures
            total == game_score(self@),
            total <= 300,
    {
        let fs = self.frames();
        let mut total: usize = 0;
        let mut k: usize = 0;
        while k < fs.len()
            invariant
                is_complete(self@),
                k <= fs@.len(),
                fs@.len() == FRAMES,
                forall|j: int|
                    0 <= j < FRAMES ==> (#[trigger] fs@[j]).start() == frame_start(self@, j as nat)
                        && fs@[j].rolls() == self@,
                total == frames_total(self@, k as nat),
            decreases fs@.len() - k,
        {
            proof {
                lemma_frames_total_bounded(self@, k as nat);
                assert(frame_fits(self@, frame_start(self@, k as nat)));
            }
            let s = fs[k].score();
            total = total + s;
            k = k + 1;
        }
        proof {
            lemma_frames_total_bounded(self@, FRAMES as nat);
        }
        total
    }

    /// Scoring only reads the log: any two scores of a game with the same
    /// rolls, with no roll recorded in between, are the same number.
    pub proof fn lemma_score_repeatable(&self, first: usize, second: usize)
        requires
            is_complete(self@),
            first == game_score(self@),
            second == game_score(self@),
        ensures
            first == second,
    {
    }
}

} // verus!
