//! One frame of a game: where it starts in the roll log, what kind it is,
//! and what it scores.

use vstd::prelude::*;

use crate::game::Game;

verus! {

/// How a frame was played.
#[derive(Debug, Clone, Copy)]
pub enum FrameType {
    /// All ten pins fell to the frame's first roll.
    Strike,
    /// All ten pins fell to the frame's two rolls together.
    Spare,
    /// Some pins were left standing after two rolls.
    Points,
}

/// Every roll knocks down between zero and ten pins.
pub open spec fn pins_in_range(rolls: Seq<usize>) -> bool {
    forall|i: int| 0 <= i < rolls.len() ==> rolls[i] <= 10
}

/// The kind of the frame that starts at roll `i`.
pub open spec fn kind_at(rolls: Seq<usize>, i: int) -> FrameType {
    if rolls[i] == 10 {
        FrameType::Strike
    } else if rolls[i] + rolls[i + 1] == 10 {
        FrameType::Spare
    } else {
        FrameType::Points
    }
}

/// The rolls needed to tell the kind of the frame at `i` are in the log.
pub open spec fn kind_readable(rolls: Seq<usize>, i: int) -> bool {
    &&& 0 <= i < rolls.len()
    &&& rolls[i] != 10 ==> i + 1 < rolls.len()
}

/// Every roll that the frame at `i` reads, bonus rolls included, is in the log.
pub open spec fn frame_fits(rolls: Seq<usize>, i: int) -> bool {
    &&& kind_readable(rolls, i)
    &&& match kind_at(rolls, i) {
        FrameType::Points => i + 1 < rolls.len(),
        _ => i + 2 < rolls.len(),
    }
}

/// The score of the frame at `i`: a strike counts the next two rolls as
/// bonus, a spare the next one, an open frame only its own two.
pub open spec fn frame_score_at(rolls: Seq<usize>, i: int) -> int {
    match kind_at(rolls, i) {
        FrameType::Strike => 10 + rolls[i + 1] + rolls[i + 2],
        FrameType::Spare => 10 + rolls[i + 2],
        FrameType::Points => rolls[i] + rolls[i + 1],
    }
}

/// Where the frame after the one at `i` starts: a strike takes one roll,
/// any other frame two.
pub open spec fn next_start(rolls: Seq<usize>, i: int) -> int {
    match kind_at(rolls, i) {
        FrameType::Strike => i + 1,
        _ => i + 2,
    }
}

/// A frame's score lies in [0, 30] when every pin count is in range.
pub proof fn lemma_frame_score_bounded(rolls: Seq<usize>, i: int)
    requires
        pins_in_range(rolls),
        frame_fits(rolls, i),
    ensures
        0 <= frame_score_at(rolls, i) <= 30,
{
}

/// A view of one frame: its first roll's position in a game's roll log.
#[derive(Debug)]
pub struct Frame<'g> {
    roll_index: usize,
    game: &'g Game,
}

impl<'g> Frame<'g> {
    /// Position of the frame's first roll.
    pub closed spec fn start(&self) -> int {
        self.roll_index as int
    }

    /// The rolls of the game that the frame belongs to.
    pub closed spec fn rolls(&self) -> Seq<usize> {
        self.game@
    }

    /// The first frame of `game`.
    pub fn new(game: &'g Game) -> (f: Frame<'g>)
        ensures
            f.start() == 0,
            f.rolls() == game@,
    {
        Frame { roll_index: 0, game }
    }

    /// The kind of this frame, told from its first one or two rolls.
    pub fn frame_type(&self) -> (t: FrameType)
        requires
            pins_in_range(self.rolls()),
            kind_readable(self.rolls(), self.start()),
        ensures
            t == kind_at(self.rolls(), self.start()),
    {
        let x = self.roll(0);
        if x == 10 {
            FrameType::Strike
        } else if x + self.roll(1) == 10 {
            FrameType::Spare
        } else {
            FrameType::Points
        }
    }

    /// The roll `increment` places after this frame's first roll.
    pub fn roll(&self, increment: usize) -> (pins: usize)
        requires
            self.start() + increment < self.rolls().len(),
        ensures
            pins == self.rolls()[self.start() + increment],
    {
        proof {
            self.game.lemma_len_fits();
        }
        self.game.pins_at(self.roll_index + increment)
    }

    /// This frame's score, bonus rolls included.
    pub fn score(&self) -> (s: usize)
        requires
            pins_in_range(self.rolls()),
            frame_fits(self.rolls(), self.start()),
        ensures
            s == frame_score_at(self.rolls(), self.start()),
            s <= 30,
    {
        match self.frame_type() {
            FrameType::Strike => 10 + self.roll(1) + self.roll(2),
            FrameType::Spare => 10 + self.roll(2),
            FrameType::Points => self.roll(0) + self.roll(1),
        }
    }

    /// The frame that follows this one in the same game.
    pub fn next(&self) -> (f: Frame<'g>)
        requires
            pins_in_range(self.rolls()),
            kind_readable(self.rolls(), self.start()),
        ensures
            f.start() == next_start(self.rolls(), self.start()),
            f.rolls() == self.rolls(),
    {
        let increment: usize = match self.frame_type() {
            FrameType::Strike => 1,
            FrameType::Spare | FrameType::Points => 2,
        };
        proof {
            self.game.lemma_len_fits();
        }
        Frame { roll_index: self.roll_index + increment, game: self.game }
    }
}

} // verus!
