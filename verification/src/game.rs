//! The game model: seats, pieces, terminal outcomes, and the fitness scoring
//! that the position adapter reports to the search engine.

use vstd::prelude::*;

verus! {

/// One of the two sides of the game.
#[derive(Clone, Copy, PartialEq, Eq, Structural, Debug, Hash)]
pub enum Seat {
    White,
    Black,
}

/// The kind of a piece.
#[derive(Clone, Copy, PartialEq, Eq, Structural, Debug)]
pub enum Role {
    Pawn,
    Knight,
    Bishop,
    Rook,
    Queen,
    King,
}

/// A piece on the board: which seat owns it and what kind it is.
#[derive(Clone, Copy, PartialEq, Eq, Structural, Debug)]
pub struct Piece {
    pub color: Seat,
    pub role: Role,
}

/// The terminal result of a game; a position that is still ongoing has none.
#[derive(Clone, Copy, PartialEq, Eq, Structural, Debug)]
pub enum Outcome {
    Draw,
    Decisive { winner: Seat },
}

/// The fixed material value of a piece kind.
pub open spec fn piece_value(r: Role) -> int {
    match r {
        Role::Pawn => 10,
        Role::Knight => 30,
        Role::Bishop => 30,
        Role::Rook => 50,
        Role::Queen => 90,
        Role::King => 900,
    }
}

/// A piece's value from `seat`'s perspective: added for own pieces,
/// subtracted for the opponent's.
pub open spec fn signed_value(p: Piece, seat: Seat) -> int {
    if p.color == seat {
        piece_value(p.role)
    } else {
        -piece_value(p.role)
    }
}

/// The material balance of a piece list from `seat`'s perspective.
pub open spec fn material(pieces: Seq<Piece>, seat: Seat) -> int
    decreases pieces.len(),
{
    if pieces.len() == 0 {
        0
    } else {
        material(pieces.drop_last(), seat) + signed_value(pieces.last(), seat)
    }
}

/// The fitness of a position from `seat`'s perspective, given its terminal
/// outcome (if any) and its pieces: a draw scores 0, a decided game scores
/// the win sentinel for the winner and the loss sentinel for the other seat,
/// and an ongoing game scores its material balance.
pub open spec fn score(outcome: Option<Outcome>, pieces: Seq<Piece>, seat: Seat) -> int {
    match outcome {
        Some(Outcome::Draw) => 0,
        Some(Outcome::Decisive { winner }) => if winner == seat {
            i32::MAX as int
        } else {
            i32::MIN as int
        },
        None => material(pieces, seat),
    }
}

/// The material balance never exceeds the largest piece value times the
/// number of pieces, in either direction.
pub proof fn lemma_material_bounded(pieces: Seq<Piece>, seat: Seat)
    ensures
        -900 * pieces.len() <= material(pieces, seat) <= 900 * pieces.len(),
    decreases pieces.len(),
{
    if pieces.len() > 0 {
        lemma_material_bounded(pieces.drop_last(), seat);
    }
}

/// Law: material scoring is perspective-antisymmetric. For any piece list,
/// the two seats' material balances are negatives of each other.
pub proof fn lemma_material_antisymmetric(pieces: Seq<Piece>, a: Seat, b: Seat)
    requires
        a != b,
    ensures
        material(pieces, a) == -material(pieces, b),
    decreases pieces.len(),
{
    if pieces.len() > 0 {
        lemma_material_antisymmetric(pieces.drop_last(), a, b);
    }
}

/// Law: on a decisive terminal outcome the winner's score is the win sentinel
/// and any other seat's score is the loss sentinel; a drawn terminal outcome
/// scores 0 for every seat.
pub proof fn lemma_terminal_scores(pieces: Seq<Piece>, w: Seat, s: Seat)
    ensures
        score(Some(Outcome::Decisive { winner: w }), pieces, w) == i32::MAX,
        w != s ==> score(Some(Outcome::Decisive { winner: w }), pieces, s) == i32::MIN,
        score(Some(Outcome::Draw), pieces, s) == 0,
{
}

/// The fixed material value of a piece kind.
pub fn piece_points(r: Role) -> (v: i32)
    ensures
        v as int == piece_value(r),
        1 <= v <= 900,
{
    match r {
        Role::Pawn => 10,
        Role::Knight => 30,
        Role::Bishop => 30,
        Role::Rook => 50,
        Role::Queen => 90,
        Role::King => 900,
    }
}

/// The material balance of a piece list from `seat`'s perspective.
///
/// A board has at most 64 squares, so at most 64 pieces; the bound keeps the
/// running sum far from the `i32` limits.
pub fn material_score(pieces: &Vec<Piece>, seat: Seat) -> (r: i32)
    requires
        pieces@.len() <= 64,
    ensures
        r as int == material(pieces@, seat),
{
    let mut acc: i32 = 0;
    let mut i: usize = 0;
    while i < pieces.len()
        invariant
            i <= pieces@.len() <= 64,
            acc as int == material(pieces@.take(i as int), seat),
        decreases pieces@.len() - i,
    {
        proof {
            lemma_material_bounded(pieces@.take(i as int), seat);
        }
        let p = pieces[i];
        let v = piece_points(p.role);
        if p.color == seat {
            acc = acc + v;
        } else {
            acc = acc - v;
        }
        proof {
            assert(pieces@.take(i + 1).drop_last() =~= pieces@.take(i as int));
            assert(pieces@.take(i + 1).last() == pieces@[i as int]);
        }
        i = i + 1;
    }
    proof {
        assert(pieces@.take(pieces@.len() as int) =~= pieces@);
    }
    acc
}

/// The fitness of a position from `seat`'s perspective, out of its terminal
/// outcome (if any) and its pieces.
pub fn score_from(outcome: &Option<Outcome>, pieces: &Vec<Piece>, seat: Seat) -> (r: i32)
    requires
        pieces@.len() <= 64,
    ensures
        r as int == score(*outcome, pieces@, seat),
{
    match outcome {
        Some(Outcome::Draw) => 0,
        Some(Outcome::Decisive { winner }) => if *winner == seat {
            i32::MAX
        } else {
            i32::MIN
        },
        None => material_score(pieces, seat),
    }
}

} // verus!
