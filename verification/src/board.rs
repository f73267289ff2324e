//! The position adapter and the move translator.
//!
//! The rules engine (move generation, legality, terminal detection, wire-text
//! notation) is the outside crate `shakmaty`; its position and move types are
//! opaque here. What the engine computes is given names (`turn_of`,
//! `outcome_of`, `pieces_of`, `is_legal_in`, `played_of`, `uci_text_of`,
//! `uci_ok`, `uci_move_of`, `fen_ok`, `fen_board_of`), each pinned to the
//! engine by a trusted wrapper; everything the driver decides on top of those
//! names is verified.

use vstd::prelude::*;

use crate::game;
use crate::game::{Outcome, Piece, Seat};

verus! {

#[verifier::external_type_specification]
#[verifier::external_body]
pub struct ExChess(shakmaty::Chess);

#[verifier::external_type_specification]
#[verifier::external_body]
pub struct ExMove(shakmaty::Move);

/// Whether a position is the standard initial arrangement, the value that
/// `shakmaty::Chess::default` builds. Exactly one position value is (see
/// `initial_board`), so `initial_position` below picks it.
pub uninterp spec fn is_initial(p: shakmaty::Chess) -> bool;

/// Whether a position carries the standard castling convention
/// (`shakmaty::CastlingMode::Standard`, held by the position's `Castles`).
/// The translator's round-trip guarantee holds only for such positions:
/// the other convention writes castling as a king-onto-rook move, which can
/// collide with a plain king move.
pub uninterp spec fn is_standard(p: shakmaty::Chess) -> bool;

/// The side to move of a position (`shakmaty::Position::turn`).
pub uninterp spec fn turn_of(p: shakmaty::Chess) -> Seat;

/// The terminal outcome of a position, `None` while the game is ongoing
/// (`shakmaty::Position::outcome`).
pub uninterp spec fn outcome_of(p: shakmaty::Chess) -> Option<Outcome>;

/// The pieces on a position's board, one entry per occupied square
/// (`shakmaty::Board::iter`).
pub uninterp spec fn pieces_of(p: shakmaty::Chess) -> Seq<Piece>;

/// Whether a move is legal in a position (`shakmaty::Position::is_legal`).
pub uninterp spec fn is_legal_in(p: shakmaty::Chess, m: shakmaty::Move) -> bool;

/// The position after a legal move is played
/// (`shakmaty::Position::play_unchecked`).
pub uninterp spec fn played_of(p: shakmaty::Chess, m: shakmaty::Move) -> shakmaty::Chess;

/// The wire text of a move in coordinate notation
/// (`shakmaty::uci::UciMove::from_standard`, rendered).
pub uninterp spec fn uci_text_of(m: shakmaty::Move) -> Seq<char>;

/// Whether move text resolves to a legal move of a position
/// (`shakmaty::uci::UciMove::from_ascii` followed by `UciMove::to_move`).
pub uninterp spec fn uci_ok(p: shakmaty::Chess, t: Seq<char>) -> bool;

/// The legal move that move text resolves to in a position, when it does
/// (`shakmaty::uci::UciMove::to_move`).
pub uninterp spec fn uci_move_of(p: shakmaty::Chess, t: Seq<char>) -> shakmaty::Move;

/// Whether text is a readable board description of a valid standard-chess
/// position (`shakmaty::fen::Fen::from_ascii` followed by
/// `shakmaty::Chess::from_setup`).
pub uninterp spec fn fen_ok(t: Seq<char>) -> bool;

/// The position that a valid board description gives
/// (`shakmaty::Chess::from_setup` of the parsed description).
pub uninterp spec fn fen_board_of(t: Seq<char>) -> shakmaty::Chess;

/// The standard initial arrangement: the one position value that `is_initial`
/// holds of.
pub open spec fn initial_position() -> shakmaty::Chess {
    choose|b: shakmaty::Chess| is_initial(b)
}

/// The translator's verdict is exactly this move.
pub open spec fn resolves_to(r: Result<shakmaty::Move, MoveError>, m: shakmaty::Move) -> bool {
    r == Ok::<shakmaty::Move, MoveError>(m)
}

/// Any move the translator hands back is legal in the position.
pub open spec fn yields_legal(p: shakmaty::Chess, r: Result<shakmaty::Move, MoveError>) -> bool {
    r matches Ok(m) ==> is_legal_in(p, m)
}

/// When the translator's verdict carries a move, it is this one.
pub open spec fn ok_move_is(r: Result<shakmaty::Move, MoveError>, m: shakmaty::Move) -> bool {
    r matches Ok(x) ==> x == m
}

/// The position reached from `p` by resolving and playing each move text in
/// order.
pub open spec fn apply_texts(p: shakmaty::Chess, ts: Seq<Seq<char>>) -> shakmaty::Chess
    decreases ts.len(),
{
    if ts.len() == 0 {
        p
    } else {
        let q = apply_texts(p, ts.drop_last());
        played_of(q, uci_move_of(q, ts.last()))
    }
}

/// Every move text in the list resolves, in order, to a legal move of the
/// position it is applied to, starting from `p`.
pub open spec fn texts_resolve(p: shakmaty::Chess, ts: Seq<Seq<char>>) -> bool
    decreases ts.len(),
{
    ts.len() == 0 || (texts_resolve(p, ts.drop_last()) && uci_ok(
        apply_texts(p, ts.drop_last()),
        ts.last(),
    ))
}

/// When the whole list resolves, so does every prefix, and each text resolves
/// in the position its prefix reaches.
pub(crate) proof fn lemma_texts_resolve_prefix(p: shakmaty::Chess, ts: Seq<Seq<char>>, i: int)
    requires
        0 <= i < ts.len(),
        texts_resolve(p, ts),
    ensures
        texts_resolve(p, ts.take(i)),
        uci_ok(apply_texts(p, ts.take(i)), ts[i]),
    decreases ts.len(),
{
    if i == ts.len() - 1 {
        assert(ts.drop_last() =~= ts.take(i));
    } else {
        lemma_texts_resolve_prefix(p, ts.drop_last(), i);
        assert(ts.drop_last().take(i) =~= ts.take(i));
    }
}

/// Why move text is rejected: it is not coordinate notation, or it names no
/// legal move of the position.
#[derive(Clone, Copy, PartialEq, Eq, Structural, Debug)]
pub enum MoveError {
    Malformed,
    Illegal,
}

/// Why a board description is rejected: it cannot be read, or it describes no
/// valid position.
#[derive(Clone, Copy, PartialEq, Eq, Structural, Debug)]
pub enum SetupError {
    Malformed,
    Invalid,
}

/// Relies on `shakmaty::Chess::default`: the standard initial arrangement
/// under the standard castling convention, with white to move and the game
/// not over. Positions are compared by their content, so only one position
/// value is the standard initial arrangement.
#[verifier::external_body]
fn initial_board() -> (r: shakmaty::Chess)
    ensures
        is_initial(r),
        forall|b: shakmaty::Chess| #[trigger] is_initial(b) ==> b == r,
        is_standard(r),
        turn_of(r) == Seat::White,
        outcome_of(r) is None,
{
    shakmaty::Chess::default()
}

/// Relies on `shakmaty::Position::turn`: the side to move.
#[verifier::external_body]
fn board_turn(board: &shakmaty::Chess) -> (s: Seat)
    ensures
        s == turn_of(*board),
{
    match shakmaty::Position::turn(board) {
        shakmaty::Color::White => Seat::White,
        shakmaty::Color::Black => Seat::Black,
    }
}

/// Relies on `shakmaty::Position::outcome`: `Known` exactly when the game is
/// over (checkmate, stalemate, or insufficient material), `Unknown` otherwise.
#[verifier::external_body]
fn board_outcome(board: &shakmaty::Chess) -> (r: Option<Outcome>)
    ensures
        r == outcome_of(*board),
{
    match shakmaty::Position::outcome(board) {
        shakmaty::Outcome::Known(shakmaty::KnownOutcome::Draw) => Some(Outcome::Draw),
        shakmaty::Outcome::Known(shakmaty::KnownOutcome::Decisive { winner }) => {
            let w = match winner { shakmaty::Color::White => Seat::White, shakmaty::Color::Black => Seat::Black };
            Some(Outcome::Decisive { winner: w })
        },
        shakmaty::Outcome::Unknown => None,
    }
}

/// Relies on `shakmaty::Board::iter` (through `Position::board`): one entry
/// per occupied square of the 64-square board.
#[verifier::external_body]
fn board_pieces(board: &shakmaty::Chess) -> (r: Vec<Piece>)
    ensures
        r@ == pieces_of(*board),
        r@.len() <= 64,
{
    let mut v = Vec::new();
    for (_square, p) in shakmaty::Position::board(board).iter() {
        let color = match p.color { shakmaty::Color::White => Seat::White, shakmaty::Color::Black => Seat::Black };
        let role = match p.role {
            shakmaty::Role::Pawn => game::Role::Pawn, shakmaty::Role::Knight => game::Role::Knight,
            shakmaty::Role::Bishop => game::Role::Bishop, shakmaty::Role::Rook => game::Role::Rook,
            shakmaty::Role::Queen => game::Role::Queen, shakmaty::Role::King => game::Role::King,
        };
        v.push(Piece { color, role });
    }
    v
}

/// Relies on `shakmaty::Position::legal_moves`: every listed move is legal
/// (`Position::is_legal`), every legal move is listed, and the generator
/// emits each move once.
#[verifier::external_body]
fn board_legal_moves(board: &shakmaty::Chess) -> (r: Vec<shakmaty::Move>)
    ensures
        forall|i: int| 0 <= i < r@.len() ==> is_legal_in(*board, #[trigger] r@[i]),
        forall|m: shakmaty::Move| #[trigger] is_legal_in(*board, m) ==> r@.contains(m),
        r@.no_duplicates(),
{
    shakmaty::Position::legal_moves(board).into_iter().collect()
}

/// Relies on `shakmaty::Position::play_unchecked`, which demands a legal move
/// of the position, applies it in place, and keeps the castling convention.
#[verifier::external_body]
fn board_play(board: &mut shakmaty::Chess, m: &shakmaty::Move)
    requires
        is_legal_in(*old(board), *m),
    ensures
        *final(board) == played_of(*old(board), *m),
        is_standard(*old(board)) ==> is_standard(*final(board)),
{
    shakmaty::Position::play_unchecked(board, *m)
}

/// Relies on `shakmaty::uci::UciMove::from_standard` and its rendering: the
/// coordinate notation of a move, a pure function of the move (castling is
/// written as the two-square king move).
#[verifier::external_body]
fn move_to_wire(m: &shakmaty::Move) -> (r: String)
    ensures
        r@ == uci_text_of(*m),
{
    shakmaty::uci::UciMove::from_standard(*m).to_string()
}

/// Relies on `shakmaty::uci::UciMove::from_ascii` (reading coordinate
/// notation; `Malformed` when the text is not such notation) and
/// `UciMove::to_move` (resolving against the position; `Illegal` when no
/// legal move matches). Both are functions of the position and the text.
/// `to_move` returns legal moves only. On a position under the standard
/// castling convention, the text of a legal move resolves to that move
/// itself: from, to and promotion determine a legal standard-chess move
/// uniquely — castling is the two-square king move, never a legal plain king
/// move, and a diagonal pawn move onto an empty square is exactly an
/// en-passant capture. (Under the other convention castling is written as a
/// king-onto-rook move, which can collide with a plain king move, so the
/// round-trip clause is guarded.)
#[verifier::external_body]
fn wire_to_move(board: &shakmaty::Chess, text: &str) -> (r: Result<shakmaty::Move, MoveError>)
    ensures
        yields_legal(*board, r),
        (r is Ok) == uci_ok(*board, text@),
        ok_move_is(r, uci_move_of(*board, text@)),
        forall|m: shakmaty::Move| is_standard(*board) && #[trigger] is_legal_in(*board, m) && text@ == uci_text_of(m) ==> resolves_to(r, m),
{
    match shakmaty::uci::UciMove::from_ascii(text.as_bytes()) {
        Err(_) => Err(MoveError::Malformed),
        Ok(u) => match u.to_move(board) {
            Err(_) => Err(MoveError::Illegal),
            Ok(m) => Ok(m),
        },
    }
}

/// Relies on `shakmaty::fen::Fen::from_ascii` (reading a board description;
/// `Malformed` when the text is not one) and `shakmaty::Chess::from_setup`
/// with the standard castling convention (validating it as a standard-chess
/// position; `Invalid` when it is none). Both are functions of the text.
#[verifier::external_body]
fn board_from_fen(text: &str) -> (r: Result<shakmaty::Chess, SetupError>)
    ensures
        (r is Ok) == fen_ok(text@),
        r matches Ok(p) ==> p == fen_board_of(text@) && is_standard(p),
{
    match shakmaty::fen::Fen::from_ascii(text.as_bytes()) {
        Err(_) => Err(SetupError::Malformed),
        Ok(f) => match <shakmaty::Chess as shakmaty::FromSetup>::from_setup(f.into_setup(), shakmaty::CastlingMode::Standard)
        {
            Err(_) => Err(SetupError::Invalid),
            Ok(p) => Ok(p),
        },
    }
}

/// Relies on `shakmaty::Chess`'s derived `Clone`: field for field, so the
/// clone equals the original.
#[verifier::external_body]
fn board_clone(board: &shakmaty::Chess) -> (r: shakmaty::Chess)
    ensures
        r == *board,
{
    board.clone()
}

/// A board position of the rules engine, wrapped so that the adapter's
/// operations carry contracts.
pub struct Position {
    pub board: shakmaty::Chess,
}

impl Clone for Position {
    fn clone(&self) -> (r: Self)
        ensures
            r == *self,
    {
        Position { board: board_clone(&self.board) }
    }
}

impl Position {
    /// A game at the standard initial arrangement.
    pub fn initial() -> (g: Position)
        ensures
            g.board == initial_position(),
            is_initial(g.board),
            is_standard(g.board),
            turn_of(g.board) == Seat::White,
            outcome_of(g.board) is None,
    {
        let g = Position { board: initial_board() };
        proof {
            assert(exists|b: shakmaty::Chess| is_initial(b));
        }
        g
    }

    /// A game at the position a board description gives, if the description
    /// is readable and valid.
    pub fn from_description(text: &str) -> (r: Result<Position, SetupError>)
        ensures
            (r is Ok) == fen_ok(text@),
            r matches Ok(g) ==> g.board == fen_board_of(text@) && is_standard(g.board),
    {
        match board_from_fen(text) {
            Ok(board) => Ok(Position { board }),
            Err(e) => Err(e),
        }
    }

    /// The seat to move.
    pub fn turn(&self) -> (s: Seat)
        ensures
            s == turn_of(self.board),
    {
        board_turn(&self.board)
    }

    /// The terminal outcome, `None` while the game is ongoing.
    pub fn outcome(&self) -> (r: Option<Outcome>)
        ensures
            r == outcome_of(self.board),
    {
        board_outcome(&self.board)
    }

    /// The pieces on the board, one entry per occupied square.
    pub fn pieces(&self) -> (r: Vec<Piece>)
        ensures
            r@ == pieces_of(self.board),
            r@.len() <= 64,
    {
        board_pieces(&self.board)
    }

    /// Position adapter: whether `seat` is to move, and the legal actions.
    /// The action list holds exactly the legal moves of the side to move,
    /// each once, and is empty when it is not `seat`'s turn or the game is
    /// already over.
    pub fn actions(&self, seat: Seat) -> (r: (bool, Vec<shakmaty::Move>))
        ensures
            r.0 == (seat == turn_of(self.board)),
            !r.0 ==> r.1@.len() == 0,
            outcome_of(self.board) is Some ==> r.1@.len() == 0,
            r.1@.no_duplicates(),
            (r.0 && outcome_of(self.board) is None) ==> {
                &&& forall|i: int|
                    0 <= i < r.1@.len() ==> is_legal_in(self.board, #[trigger] r.1@[i])
                &&& forall|m: shakmaty::Move|
                    #[trigger] is_legal_in(self.board, m) ==> r.1@.contains(m)
            },
    {
        let to_move = self.turn() == seat;
        if !to_move {
            (false, Vec::new())
        } else if self.outcome().is_some() {
            (true, Vec::new())
        } else {
            (true, board_legal_moves(&self.board))
        }
    }

    /// Position adapter: apply a legal action to the position, and score what
    /// results from `seat`'s perspective — the win or loss sentinel or 0 on a
    /// terminal position, the material balance otherwise.
    pub fn execute(&mut self, action: &shakmaty::Move, seat: Seat) -> (r: i32)
        requires
            is_legal_in(old(self).board, *action),
        ensures
            final(self).board == played_of(old(self).board, *action),
            pieces_of(final(self).board).len() <= 64,
            r as int == game::score(
                outcome_of(final(self).board),
                pieces_of(final(self).board),
                seat,
            ),
    {
        board_play(&mut self.board, action);
        let outcome = self.outcome();
        let pieces = self.pieces();
        game::score_from(&outcome, &pieces, seat)
    }

    /// Apply a legal action to the position without scoring it, as the
    /// position command's move list demands.
    pub(crate) fn apply(&mut self, action: &shakmaty::Move)
        requires
            is_legal_in(old(self).board, *action),
        ensures
            final(self).board == played_of(old(self).board, *action),
    {
        board_play(&mut self.board, action);
    }

    /// Move translator: parse wire text into an action of this position.
    /// Exactly the texts that resolve yield an action, the action is the
    /// resolved one and legal, and on a standard-convention position the
    /// coordinate notation of a legal move resolves to that move.
    pub fn from_text(&self, text: &str) -> (r: Result<shakmaty::Move, MoveError>)
        ensures
            yields_legal(self.board, r),
            (r is Ok) == uci_ok(self.board, text@),
            ok_move_is(r, uci_move_of(self.board, text@)),
            forall|m: shakmaty::Move| is_standard(self.board) && #[trigger] is_legal_in(self.board, m) && text@ == uci_text_of(m) ==> resolves_to(r, m),
    {
        wire_to_move(&self.board, text)
    }

    /// Move translator: render an action as wire text.
    pub fn to_text(&self, m: &shakmaty::Move) -> (r: String)
        ensures
            r@ == uci_text_of(*m),
    {
        move_to_wire(m)
    }

    /// Law: on a standard-convention position, rendering a legal action to
    /// wire text and parsing it back in the same position yields that action
    /// again.
    pub fn round_trip(&self, m: &shakmaty::Move) -> (r: Result<shakmaty::Move, MoveError>)
        requires
            is_standard(self.board),
            is_legal_in(self.board, *m),
        ensures
            resolves_to(r, *m),
    {
        let text = self.to_text(m);
        self.from_text(text.as_str())
    }
}

} // verus!
