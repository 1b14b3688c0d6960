use vstd::prelude::*;

verus! {

/// The result of one game, seen from one player's side.
#[derive(Clone, Copy, Debug, PartialEq, Eq, Structural)]
pub enum GameResult {
    Win,
    Draw,
    Loss,
}

impl GameResult {
    /// The score of the outcome counted in half-points: a win scores one
    /// point (two halves), a draw half a point, a loss nothing.
    pub open spec fn half_points_spec(self) -> nat {
        match self {
            GameResult::Win => 2,
            GameResult::Draw => 1,
            GameResult::Loss => 0,
        }
    }

    /// The score of the outcome in half-points; the score in points is half
    /// of it (1, 0.5 or 0).
    pub fn get_half_points(&self) -> (r: u32)
        ensures
            r == self.half_points_spec(),
            r <= 2,
    {
        match self {
            GameResult::Win => 2,
            GameResult::Draw => 1,
            GameResult::Loss => 0,
        }
    }
}

/// Each outcome has its own score: a win scores a whole point, a draw half
/// of one, a loss none, and no two outcomes score alike.
pub proof fn lemma_half_points_exact(g: GameResult, h: GameResult)
    ensures
        (g == GameResult::Win) <==> g.half_points_spec() == 2,
        (g == GameResult::Draw) <==> g.half_points_spec() == 1,
        (g == GameResult::Loss) <==> g.half_points_spec() == 0,
        g.half_points_spec() == h.half_points_spec() <==> g == h,
{
}

} // verus!
