//! The time controller: a pure policy mapping the protocol's time-control
//! parameters to a per-move search budget in milliseconds.

use vstd::prelude::*;

use crate::game::Seat;

verus! {

/// The budget used when no usable time control is given.
pub const DEFAULT_BUDGET_MS: u64 = 5000;

/// The additive headroom cap of the clock policy.
pub const CAP_MS: u64 = 7000;

/// The protocol's time-control clause for one search request.
#[derive(Clone, Copy, Debug)]
pub enum TimeControl {
    /// No time control was given at all.
    Unset,
    /// A fixed budget per move, in milliseconds.
    Fixed(u64),
    /// A game clock: per-seat remaining time and increment in milliseconds,
    /// and whether a moves-to-go count was given (recognized but unsupported).
    Clock {
        white_time: Option<u64>,
        black_time: Option<u64>,
        white_increment: Option<u64>,
        black_increment: Option<u64>,
        moves_to_go: bool,
    },
    /// A recognized but unsupported mode (pondering or an unbounded search).
    Unsupported,
}

/// The clock policy: spend a twentieth of the remaining time plus half the
/// increment, but never more than the cap plus the increment.
pub open spec fn clock_budget(remaining: u64, increment: u64) -> int {
    let ideal = increment as int / 2 + remaining as int / 20;
    let most = CAP_MS as int + increment as int;
    if ideal <= most {
        ideal
    } else {
        most
    }
}

/// The budget for one search: a fixed budget is taken unchanged; a clock is
/// read on the moving seat's side, falling back to the default when remaining
/// time or increment is absent; everything else gets the default.
pub open spec fn allocate_spec(control: TimeControl, seat_to_move: Seat) -> int {
    match control {
        TimeControl::Fixed(ms) => ms as int,
        TimeControl::Clock { white_time, black_time, white_increment, black_increment, .. } => {
            let pair = if seat_to_move == Seat::White {
                (white_time, white_increment)
            } else {
                (black_time, black_increment)
            };
            match pair {
                (Some(t), Some(i)) => clock_budget(t, i),
                _ => DEFAULT_BUDGET_MS as int,
            }
        },
        TimeControl::Unset => DEFAULT_BUDGET_MS as int,
        TimeControl::Unsupported => DEFAULT_BUDGET_MS as int,
    }
}

/// Whether a search request must be reported on the diagnostic channel:
/// an unsupported mode, a moves-to-go count, or extra search constraints.
pub open spec fn go_diagnostic(control: TimeControl, constrained: bool) -> bool {
    ||| constrained
    ||| control is Unsupported
    ||| (control matches TimeControl::Clock { moves_to_go, .. } && moves_to_go)
}

/// The clock policy on one seat's remaining time and increment.
fn clock_budget_ms(remaining: u64, increment: u64) -> (r: u64)
    ensures
        r as int == clock_budget(remaining, increment),
{
    proof {
        vstd::arithmetic::div_mod::lemma_div_is_ordered(increment as int, u64::MAX as int, 2);
        vstd::arithmetic::div_mod::lemma_div_is_ordered(remaining as int, u64::MAX as int, 20);
    }
    let ideal: u64 = increment / 2 + remaining / 20;
    if increment <= u64::MAX - CAP_MS {
        let most: u64 = CAP_MS + increment;
        if ideal <= most {
            ideal
        } else {
            most
        }
    } else {
        ideal
    }
}

/// The budget for one search, in milliseconds.
pub fn allocate(control: &TimeControl, seat_to_move: Seat) -> (r: u64)
    ensures
        r as int == allocate_spec(*control, seat_to_move),
{
    match control {
        TimeControl::Fixed(ms) => *ms,
        TimeControl::Clock { white_time, black_time, white_increment, black_increment, .. } => {
            let (time, increment) = if seat_to_move == Seat::White {
                (white_time, white_increment)
            } else {
                (black_time, black_increment)
            };
            match (time, increment) {
                (Some(t), Some(i)) => clock_budget_ms(*t, *i),
                _ => DEFAULT_BUDGET_MS,
            }
        },
        TimeControl::Unset => DEFAULT_BUDGET_MS,
        TimeControl::Unsupported => DEFAULT_BUDGET_MS,
    }
}

/// Whether a search request must be reported on the diagnostic channel.
pub fn needs_diagnostic(control: &TimeControl, constrained: bool) -> (r: bool)
    ensures
        r == go_diagnostic(*control, constrained),
{
    if constrained {
        true
    } else {
        match control {
            TimeControl::Unsupported => true,
            TimeControl::Clock { moves_to_go, .. } => *moves_to_go,
            _ => false,
        }
    }
}

} // verus!
