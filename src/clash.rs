//! Clash bookkeeping: the match-wide escalation counter and the push-back
//! displacement handed to the animation collaborator.
use vstd::prelude::*;

verus! {

/// Distance a clash pushes each player away from the other: 300 world units,
/// in position units.
pub const PUSH_BACK_DISTANCE: i64 = 300_000_000;
/// Length of the push-back animation, in microseconds.
pub const PUSH_BACK_DURATION: u64 = 200_000;

/// Number of clashes resolved in the match; it raises the movement speed.
#[derive(Clone, Copy, Debug, PartialEq, Eq, Structural)]
pub struct ClashCounter(pub u32);

impl Default for ClashCounter {
    fn default() -> (r: ClashCounter)
        ensures
            r.0 == 0,
    {
        ClashCounter(0)
    }
}

/// `n` added to `count`, held at the largest `u32`.
pub open spec fn saturating_count(count: u32, n: nat) -> u32 {
    if count + n <= u32::MAX {
        (count + n) as u32
    } else {
        u32::MAX
    }
}

impl ClashCounter {
    /// Counts one more clash (held at the largest `u32`).
    pub fn increment(&mut self)
        ensures
            final(self).0 == saturating_count(old(self).0, 1),
    {
        if self.0 < u32::MAX {
            self.0 = self.0 + 1;
        }
    }

    /// Starts the count over for a new match.
    pub fn clear(&mut self)
        ensures
            final(self).0 == 0,
    {
        self.0 = 0;
    }
}

/// An animation request: move `player` from `start` to `end` over `duration`
/// microseconds.
#[derive(Clone, Copy, Debug, PartialEq, Eq, Structural)]
pub struct PushBack {
    pub player: u8,
    pub start: i64,
    pub end: i64,
    pub duration: u64,
}

/// `x` held to the range of `i64`.
pub open spec fn saturate(x: int) -> int {
    if x < i64::MIN {
        i64::MIN as int
    } else if x > i64::MAX {
        i64::MAX as int
    } else {
        x
    }
}

/// Which way a clash pushes a player: away from the other one. On equal
/// positions player 1 goes right and player 2 left.
pub open spec fn push_direction(player: u8, own: int, other: int) -> int {
    if own < other {
        -1
    } else if own > other {
        1
    } else if player == 1 {
        1
    } else {
        -1
    }
}

/// The push-back of `player`, standing at `own`, away from `other`.
pub open spec fn push_back_of(player: u8, own: i64, other: i64) -> PushBack {
    PushBack {
        player,
        start: own,
        end: saturate(own + push_direction(player, own as int, other as int) * PUSH_BACK_DISTANCE) as i64,
        duration: PUSH_BACK_DURATION,
    }
}

/// Computes the push-back of `player`, standing at `own`, away from `other`.
pub fn push_back(player: u8, own: i64, other: i64) -> (r: PushBack)
    ensures
        r == push_back_of(player, own, other),
{
    let left = own < other || (own == other && player != 1);
    let end: i128 = if left {
        own as i128 - PUSH_BACK_DISTANCE as i128
    } else {
        own as i128 + PUSH_BACK_DISTANCE as i128
    };
    let end: i64 = if end < i64::MIN as i128 {
        i64::MIN
    } else if end > i64::MAX as i128 {
        i64::MAX
    } else {
        end as i64
    };
    PushBack { player, start: own, end, duration: PUSH_BACK_DURATION }
}

} // verus!
