use chess_uci::timing::{allocate, needs_diagnostic, TimeControl};
use chess_uci::Seat;

fn clock(
    white_time: Option<u64>,
    black_time: Option<u64>,
    white_increment: Option<u64>,
    black_increment: Option<u64>,
    moves_to_go: bool,
) -> TimeControl {
    TimeControl::Clock { white_time, black_time, white_increment, black_increment, moves_to_go }
}

#[test]
fn clock_budget_is_half_increment_plus_twentieth_of_remaining() {
    let c = clock(Some(60000), Some(60000), Some(1000), Some(1000), false);
    assert_eq!(allocate(&c, Seat::White), 3500);
    assert_eq!(allocate(&c, Seat::Black), 3500);
}

#[test]
fn clock_budget_reads_the_moving_seats_side() {
    let c = clock(Some(60000), Some(20000), Some(1000), Some(0), false);
    assert_eq!(allocate(&c, Seat::White), 3500);
    assert_eq!(allocate(&c, Seat::Black), 1000);
}

#[test]
fn clock_budget_is_capped() {
    let c = clock(Some(1_000_000), None, Some(4000), None, false);
    assert_eq!(allocate(&c, Seat::White), 7000 + 4000);
}

#[test]
fn fixed_budget_is_taken_unchanged() {
    assert_eq!(allocate(&TimeControl::Fixed(2000), Seat::White), 2000);
    assert_eq!(allocate(&TimeControl::Fixed(2000), Seat::Black), 2000);
}

#[test]
fn no_time_control_gets_the_default() {
    assert_eq!(allocate(&TimeControl::Unset, Seat::White), 5000);
    assert_eq!(allocate(&TimeControl::Unset, Seat::Black), 5000);
}

#[test]
fn missing_clock_fields_get_the_default() {
    let c = clock(Some(60000), None, None, None, false);
    assert_eq!(allocate(&c, Seat::White), 5000);
    assert_eq!(allocate(&c, Seat::Black), 5000);
}

#[test]
fn unsupported_modes_get_the_default_and_a_diagnostic() {
    assert_eq!(allocate(&TimeControl::Unsupported, Seat::White), 5000);
    assert!(needs_diagnostic(&TimeControl::Unsupported, false));
}

#[test]
fn moves_to_go_is_diagnostic_but_still_computed() {
    let c = clock(Some(60000), Some(60000), Some(1000), Some(1000), true);
    assert!(needs_diagnostic(&c, false));
    assert_eq!(allocate(&c, Seat::White), 3500);
}

#[test]
fn search_constraints_are_diagnostic() {
    assert!(needs_diagnostic(&TimeControl::Fixed(100), true));
    assert!(!needs_diagnostic(&TimeControl::Fixed(100), false));
}
