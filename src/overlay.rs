//! The status lines shown over the game: level, targets left, time left.
use vstd::prelude::*;
use crate::state::LevelState;
use crate::timer::{decimal, push_decimal, TimeController};

verus! {

pub open spec fn spec_level_text(level: LevelState) -> Seq<char> {
    "LEVEL "@ + level.spec_info().0 + " - "@ + level.spec_info().1
}

pub open spec fn spec_targets_text(targets_left: nat) -> Seq<char> {
    "TARGETS LEFT: "@ + decimal(targets_left)
}

pub open spec fn spec_time_text(time: TimeController) -> Seq<char> {
    "TIME: "@ + time.spec_time_left()
}

/// "LEVEL 3 - MEDIUM" and the like.
pub fn level_text(level: LevelState) -> (r: String)
    ensures
        r@ == spec_level_text(level),
{
    let (number, name) = level.info();
    proof {
        reveal_strlit("LEVEL ");
        reveal_strlit(" - ");
    }
    let mut s = String::from_str("LEVEL ");
    s.append(number);
    s.append(" - ");
    s.append(name);
    s
}

/// "TARGETS LEFT: 23" and the like.
pub fn targets_text(targets_left: usize) -> (r: String)
    ensures
        r@ == spec_targets_text(targets_left as nat),
{
    proof {
        reveal_strlit("TARGETS LEFT: ");
    }
    let mut s = String::from_str("TARGETS LEFT: ");
    push_decimal(&mut s, targets_left as u64);
    s
}

/// "TIME: 49.98s", or "TIME: No timer" without a countdown.
pub fn time_text(time: &TimeController) -> (r: String)
    ensures
        r@ == spec_time_text(*time),
{
    proof {
        reveal_strlit("TIME: ");
    }
    let mut s = String::from_str("TIME: ");
    let left = time.get_time_left();
    s.append(left.as_str());
    s
}

} // verus!
