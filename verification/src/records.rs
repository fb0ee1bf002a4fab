//! Plain records of the service's answers, and the rule for fields that hold
//! exactly two items.

use vstd::prelude::*;

verus! {

/// A player's competitive rank on one map.
#[derive(Debug, Clone)]
pub struct CompetitiveRank {
    pub map_name: String,
    pub rank: u32,
}

/// A player somebody has lately played with.
#[derive(Debug, Clone)]
pub struct RecentTeammate {
    pub steam64_id: String,
    pub recent_matches_count: u32,
}

/// The score of one team in a match.
#[derive(Debug, Clone)]
pub struct TeamScore {
    pub team_number: u32,
    pub score: u32,
}

/// What a field of two items is said to expect, for the message of a
/// [`LengthMismatch`].
pub const EXPECTED_PAIR: &'static str = "exactly 2 elements";

/// The error of a sequence that should have held exactly two items.
#[derive(Debug, Clone, Copy, PartialEq, Eq, Structural)]
pub struct LengthMismatch {
    /// How many items the sequence held.
    pub found: usize,
}

/// Turns a sequence of exactly two items into a pair, in the order in which
/// they came. A sequence of any other length is an error that tells the
/// length found: nothing is cut off and nothing is filled in.
pub fn exactly_two<T>(items: Vec<T>) -> (r: Result<[T; 2], LengthMismatch>)
    ensures
        match r {
            Ok(pair) => items@.len() == 2 && pair@ == items@,
            Err(e) => items@.len() != 2 && e.found == items@.len(),
        },
{
    let mut items = items;
    let found = items.len();
    if found == 2 {
        let second = items.pop().unwrap();
        let first = items.pop().unwrap();
        Ok([first, second])
    } else {
        Err(LengthMismatch { found })
    }
}

/// The final score of a match from the numbers that were decoded for it:
/// exactly two, in their order.
pub fn deserialize_score(vec: Vec<u32>) -> (r: Result<[u32; 2], LengthMismatch>)
    ensures
        match r {
            Ok(score) => vec@.len() == 2 && score@ == vec@,
            Err(e) => vec@.len() != 2 && e.found == vec@.len(),
        },
{
    exactly_two(vec)
}

/// The scores of the two teams of a match from the scores that were decoded
/// for it: exactly two, in their order.
pub fn deserialize_team_scores(vec: Vec<TeamScore>) -> (r: Result<[TeamScore; 2], LengthMismatch>)
    ensures
        match r {
            Ok(scores) => vec@.len() == 2 && scores@ == vec@,
            Err(e) => vec@.len() != 2 && e.found == vec@.len(),
        },
{
    exactly_two(vec)
}

} // verus!
