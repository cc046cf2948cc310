//! The walk over a game's ten frames, and what it adds up to.

use vstd::prelude::*;

use crate::frame::{frame_fits, frame_score_at, lemma_frame_score_bounded, next_start, pins_in_range};

verus! {

/// The number of frames in a game.
pub const FRAMES: usize = 10;

/// Where frame `k` (counted from zero) starts: the first frame at roll 0,
/// each later one where the one before it ends.
pub open spec fn frame_start(rolls: Seq<usize>, k: nat) -> int
    decreases k,
{
    if k == 0 {
        0
    } else {
        next_start(rolls, frame_start(rolls, (k - 1) as nat))
    }
}

/// The sum of the scores of the first `k` frames.
pub open spec fn frames_total(rolls: Seq<usize>, k: nat) -> int
    decreases k,
{
    if k == 0 {
        0
    } else {
        frames_total(rolls, (k - 1) as nat) + frame_score_at(rolls, frame_start(rolls, (k - 1) as nat))
    }
}

/// The score of the game: the sum of its ten frames' scores.
pub open spec fn game_score(rolls: Seq<usize>) -> int {
    frames_total(rolls, FRAMES as nat)
}

/// The log holds a whole game: every pin count is in range, and each of
/// the ten frames finds all the rolls it reads, its bonus rolls included.
pub open spec fn is_complete(rolls: Seq<usize>) -> bool {
    &&& pins_in_range(rolls)
    &&& forall|k: nat| k < FRAMES ==> #[trigger] frame_fits(rolls, frame_start(rolls, k))
}

/// The first `k` frames of a complete game score between 0 and 30 each.
pub proof fn lemma_frames_total_bounded(rolls: Seq<usize>, k: nat)
    requires
        is_complete(rolls),
        k <= FRAMES,
    ensures
        0 <= frames_total(rolls, k) <= 30 * k,
    decreases k,
{
    if k > 0 {
        lemma_frames_total_bounded(rolls, (k - 1) as nat);
        assert(frame_fits(rolls, frame_start(rolls, (k - 1) as nat)));
        lemma_frame_score_bounded(rolls, frame_start(rolls, (k - 1) as nat));
    }
}

/// The score of a complete game is the sum of exactly ten frame scores,
/// and each of those lies in [0, 30].
pub proof fn lemma_ten_frame_scores(rolls: Seq<usize>)
    requires
        is_complete(rolls),
    ensures
        game_score(rolls) == frames_total(rolls, 10),
        forall|k: nat|
            k < FRAMES ==> 0 <= #[trigger] frame_score_at(rolls, frame_start(rolls, k)) <= 30,
{
    assert forall|k: nat| k < FRAMES implies 0 <= #[trigger] frame_score_at(
        rolls,
        frame_start(rolls, k),
    ) <= 30 by {
        assert(frame_fits(rolls, frame_start(rolls, k)));
        lemma_frame_score_bounded(rolls, frame_start(rolls, k));
    }
}

/// The score of a complete game lies in [0, 300].
pub proof fn lemma_game_score_bounded(rolls: Seq<usize>)
    requires
        is_complete(rolls),
    ensures
        0 <= game_score(rolls) <= 300,
{
    lemma_frames_total_bounded(rolls, FRAMES as nat);
}

} // verus!
