use vstd::prelude::*;

verus! {

/// A player's experience tier, which sets how volatile the rating is.
#[derive(Clone, Copy, Debug, PartialEq, Eq, Structural)]
pub enum Experience {
    New,
    Intermediate,
    Expert,
}

/// Age below which a player with a low peak rating still counts as new.
pub const ADULT_AGE: u32 = 18;

/// Number of games a player needs before leaving the new tier.
pub const MIN_GAMES: u32 = 30;

/// Peak rating below which a young player counts as new.
pub const YOUTH_RATING_BOUND: u32 = 2300;

/// Peak rating from which a player is an expert.
pub const EXPERT_RATING: u32 = 2400;

/// The tier of a player of the given age, number of games played and
/// highest rating reached. The first matching rule wins: young with a low
/// peak, or few games, is new; otherwise a peak under the expert bound is
/// intermediate; everyone else is an expert.
pub open spec fn experience_of(age: nat, games_played: nat, highest_rating: nat) -> Experience {
    if (age < ADULT_AGE && highest_rating < YOUTH_RATING_BOUND) || games_played < MIN_GAMES {
        Experience::New
    } else if highest_rating < EXPERT_RATING {
        Experience::Intermediate
    } else {
        Experience::Expert
    }
}

impl Experience {
    /// The development coefficient (K-factor) of the tier.
    pub open spec fn coefficient_spec(self) -> nat {
        match self {
            Experience::New => 40,
            Experience::Intermediate => 20,
            Experience::Expert => 10,
        }
    }

    /// Classifies a player by age, games played and highest rating reached.
    pub fn get_experience(age: u32, games_played: u32, highest_rating: u32) -> (r: Self)
        ensures
            r == experience_of(age as nat, games_played as nat, highest_rating as nat),
    {
        if (age < ADULT_AGE && highest_rating < YOUTH_RATING_BOUND) || games_played < MIN_GAMES {
            Experience::New
        } else if highest_rating < EXPERT_RATING {
            Experience::Intermediate
        } else {
            Experience::Expert
        }
    }

    /// The development coefficient (K-factor) of the tier: 40 for new
    /// players, 20 for intermediate ones, 10 for experts.
    pub fn get_development_coefficient(&self) -> (r: u32)
        ensures
            r == self.coefficient_spec(),
    {
        match self {
            Experience::New => 40,
            Experience::Intermediate => 20,
            Experience::Expert => 10,
        }
    }
}

/// Every tier's coefficient is one of 40, 20 and 10, and the coefficient
/// strictly decreases from new to intermediate to expert.
pub proof fn lemma_coefficient_values_decrease(e: Experience)
    ensures
        e.coefficient_spec() == 40 || e.coefficient_spec() == 20 || e.coefficient_spec() == 10,
        Experience::New.coefficient_spec() > Experience::Intermediate.coefficient_spec(),
        Experience::Intermediate.coefficient_spec() > Experience::Expert.coefficient_spec(),
{
}

/// Classification is total and exclusive: every player lands in exactly one
/// tier, and that tier is new exactly when the young-and-low-peak rule or
/// the few-games rule applies, expert exactly when neither applies and the
/// peak reaches the expert bound.
pub proof fn lemma_classification_rules(age: nat, games_played: nat, highest_rating: nat)
    ensures
        ({
            let e = experience_of(age, games_played, highest_rating);
            &&& (e == Experience::New) <==> ((age < 18 && highest_rating < 2300) || games_played < 30)
            &&& (e == Experience::Intermediate) <==> (!((age < 18 && highest_rating < 2300)
                || games_played < 30) && highest_rating < 2400)
            &&& (e == Experience::Expert) <==> (!((age < 18 && highest_rating < 2300)
                || games_played < 30) && highest_rating >= 2400)
        }),
{
}

/// Classification depends on its inputs alone: two players with the same
/// age, games played and highest rating are in the same tier, and so have
/// the same coefficient.
pub proof fn lemma_classification_deterministic(
    age: nat,
    games_played: nat,
    highest_rating: nat,
    first: Experience,
    second: Experience,
)
    requires
        first == experience_of(age, games_played, highest_rating),
        second == experience_of(age, games_played, highest_rating),
    ensures
        first == second,
        first.coefficient_spec() == second.coefficient_spec(),
{
}

} // verus!
