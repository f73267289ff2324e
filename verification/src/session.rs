//! The protocol session and its dispatcher: one structured message in, one
//! bundle of effects out. Reading lines, rendering wire text and running the
//! search engine are the surroundings' work; every decision in between is
//! made, and verified, here.

use vstd::prelude::*;

use crate::board::{
    apply_texts, fen_board_of, fen_ok, initial_position, lemma_texts_resolve_prefix, outcome_of,
    texts_resolve, turn_of, uci_text_of, MoveError, Position, SetupError,
};
use crate::game::Seat;
use crate::timing::{allocate, allocate_spec, go_diagnostic, needs_diagnostic, TimeControl};

verus! {

/// A structured protocol message, as the wire parser hands it over.
#[derive(Clone, Debug)]
pub enum Command {
    /// The handshake request that opens the protocol.
    Handshake,
    /// A readiness check.
    Readiness,
    /// The new-game signal.
    NewGame,
    /// Set the position: from the start or a board description, then a list
    /// of moves in wire text, applied in order.
    SetPosition { startpos: bool, fen: Option<String>, moves: Vec<String> },
    /// A search request, with its time control and whether it carried any of
    /// the unsupported search constraints.
    Go { time: TimeControl, constrained: bool },
    /// The quit signal.
    Quit,
    /// Anything else: recognized by nobody, reported on the diagnostic channel.
    Unknown,
}

/// A structured reply for the wire serializer to render.
#[derive(Clone, Debug, PartialEq, Eq)]
pub enum Reply {
    /// The engine's identity announcement.
    Id,
    /// The handshake-complete acknowledgment.
    HandshakeOk,
    /// The readiness acknowledgment.
    ReadyOk,
    /// The best-move announcement, carrying the move's wire text.
    BestMove(String),
}

/// Why a position command was rejected. The session is left unchanged.
#[derive(Clone, Copy, PartialEq, Eq, Structural, Debug)]
pub enum Rejection {
    MalformedFen,
    InvalidPosition,
    MalformedMove,
    IllegalMove,
}

/// What the driver asks of its surroundings after handling one message.
#[derive(Debug)]
pub struct Step {
    /// Replies to send, in order.
    pub replies: Vec<Reply>,
    /// A search to run, with its budget in milliseconds.
    pub search: Option<u64>,
    /// Whether the session is over.
    pub quit: bool,
    /// Whether the message must be reported on the diagnostic channel.
    pub diagnostic: bool,
    /// Whether (and why) a position command was rejected.
    pub rejected: Option<Rejection>,
}

/// The protocol session: the current position and the seat the engine plays.
pub struct Session {
    pub game: Position,
    pub seat: Seat,
}

/// The replies owed to the handshake request.
pub open spec fn handshake_replies() -> Seq<Reply> {
    seq![Reply::Id, Reply::HandshakeOk]
}

/// The step asks nothing on the side: no search, no quit, no diagnostic, no
/// rejection.
pub open spec fn quiet(step: Step) -> bool {
    step.search is None && !step.quit && !step.diagnostic && step.rejected is None
}

/// The views of a position command's move texts.
pub open spec fn move_texts(moves: Seq<String>) -> Seq<Seq<char>> {
    moves.map_values(|s: String| s@)
}

/// Whether a position command's base is readable and valid: the start
/// position always is, a board description must satisfy `fen_ok`, and no base
/// at all keeps the current position.
pub open spec fn base_ok(startpos: bool, fen: Option<String>) -> bool {
    startpos || (match fen {
        Some(t) => fen_ok(t@),
        None => true,
    })
}

/// The base position a position command starts from.
pub open spec fn base_board(pre: Session, startpos: bool, fen: Option<String>) -> shakmaty::Chess {
    if startpos {
        initial_position()
    } else {
        match fen {
            Some(t) => fen_board_of(t@),
            None => pre.game.board,
        }
    }
}

/// What `dispatch` guarantees, message kind by message kind.
pub open spec fn dispatch_post(pre: Session, post: Session, cmd: Command, step: Step) -> bool {
    match cmd {
        Command::Handshake => {
            &&& post == pre
            &&& quiet(step)
            &&& step.replies@ =~= handshake_replies()
        },
        Command::Readiness => {
            &&& post == pre
            &&& quiet(step)
            &&& step.replies@ =~= seq![Reply::ReadyOk]
        },
        Command::NewGame => {
            &&& post.game.board == initial_position()
            &&& turn_of(post.game.board) == Seat::White
            &&& outcome_of(post.game.board) is None
            &&& post.seat == Seat::White
            &&& quiet(step)
            &&& step.replies@.len() == 0
        },
        Command::SetPosition { startpos, fen, moves } => {
            let base = base_board(pre, startpos, fen);
            let texts = move_texts(moves@);
            &&& step.replies@.len() == 0
            &&& step.search is None
            &&& !step.quit
            &&& !step.diagnostic
            &&& (step.rejected is None <==> base_ok(startpos, fen) && texts_resolve(base, texts))
            &&& (step.rejected is Some ==> post == pre)
            &&& (step.rejected is None ==> {
                &&& post.game.board == apply_texts(base, texts)
                &&& post.seat == turn_of(post.game.board)
            })
        },
        Command::Go { time, constrained } => {
            &&& post == pre
            &&& step.replies@.len() == 0
            &&& !step.quit
            &&& step.rejected is None
            &&& step.diagnostic == go_diagnostic(time, constrained)
            &&& (step.search matches Some(b) && b as int == allocate_spec(
                time,
                turn_of(pre.game.board),
            ))
        },
        Command::Quit => {
            &&& post == pre
            &&& step.quit
            &&& step.replies@.len() == 0
            &&& step.search is None
            &&& !step.diagnostic
            &&& step.rejected is None
        },
        Command::Unknown => {
            &&& post == pre
            &&& step.diagnostic
            &&& step.replies@.len() == 0
            &&& step.search is None
            &&& !step.quit
            &&& step.rejected is None
        },
    }
}

/// What `search_reply` guarantees: no action, no reply; an action, a
/// best-move reply carrying exactly its wire text.
pub open spec fn search_reply_post(chosen: Option<shakmaty::Move>, r: Option<Reply>) -> bool {
    match chosen {
        None => r is None,
        Some(m) => r matches Some(rep) && rep matches Reply::BestMove(t) && t@ == uci_text_of(m),
    }
}

/// A step that asks nothing and replies nothing, except possibly a rejection.
fn silent_step(rejected: Option<Rejection>) -> (step: Step)
    ensures
        step.replies@.len() == 0,
        step.search is None,
        !step.quit,
        !step.diagnostic,
        step.rejected == rejected,
{
    Step { replies: Vec::new(), search: None, quit: false, diagnostic: false, rejected }
}

impl Session {
    /// A fresh session: the initial arrangement, the engine seated as the
    /// side to move, as after any position command.
    pub fn new() -> (s: Session)
        ensures
            s.game.board == initial_position(),
            outcome_of(s.game.board) is None,
            s.seat == Seat::White,
            s.seat == turn_of(s.game.board),
    {
        let game = Position::initial();
        let seat = game.turn();
        Session { game, seat }
    }

    /// Handle one message: mutate the session as the message demands and
    /// return the effects owed to the surroundings.
    ///
    /// A position command is atomic: it is rejected — with the session left
    /// unchanged — exactly when its base is unreadable or invalid or one of
    /// its move texts fails to resolve; after a successful one the session
    /// holds the base with the moves applied in order, and the engine's seat
    /// is the side to move of that position.
    pub fn dispatch(&mut self, cmd: Command) -> (step: Step)
        ensures
            dispatch_post(*old(self), *final(self), cmd, step),
    {
        match cmd {
            Command::Handshake => {
                let mut replies: Vec<Reply> = Vec::new();
                replies.push(Reply::Id);
                replies.push(Reply::HandshakeOk);
                proof {
                    assert(replies@ =~= handshake_replies());
                }
                Step { replies, search: None, quit: false, diagnostic: false, rejected: None }
            },
            Command::Readiness => {
                let mut replies: Vec<Reply> = Vec::new();
                replies.push(Reply::ReadyOk);
                proof {
                    assert(replies@ =~= seq![Reply::ReadyOk]);
                }
                Step { replies, search: None, quit: false, diagnostic: false, rejected: None }
            },
            Command::NewGame => {
                self.game = Position::initial();
                let seat = self.game.turn();
                self.seat = seat;
                silent_step(None)
            },
            Command::SetPosition { startpos, fen, moves } => self.set_position(
                startpos,
                fen,
                moves,
            ),
            Command::Go { time, constrained } => {
                let seat_to_move = self.game.turn();
                let budget = allocate(&time, seat_to_move);
                let diagnostic = needs_diagnostic(&time, constrained);
                Step {
                    replies: Vec::new(),
                    search: Some(budget),
                    quit: false,
                    diagnostic,
                    rejected: None,
                }
            },
            Command::Quit => Step {
                replies: Vec::new(),
                search: None,
                quit: true,
                diagnostic: false,
                rejected: None,
            },
            Command::Unknown => Step {
                replies: Vec::new(),
                search: None,
                quit: false,
                diagnostic: true,
                rejected: None,
            },
        }
    }

    /// The position command: build the base position, apply the moves in
    /// order, and only then commit the result and rebind the seat.
    fn set_position(&mut self, startpos: bool, fen: Option<String>, moves: Vec<String>) -> (step:
        Step)
        ensures
            dispatch_post(
                *old(self),
                *final(self),
                Command::SetPosition { startpos, fen, moves },
                step,
            ),
    {
        let ghost base = base_board(*old(self), startpos, fen);
        let ghost texts = move_texts(moves@);
        let mut game = if startpos {
            Position::initial()
        } else if let Some(text) = &fen {
            match Position::from_description(text.as_str()) {
                Ok(g) => g,
                Err(e) => {
                    proof {
                        assert(!base_ok(startpos, fen));
                    }
                    let rejected = match e {
                        SetupError::Malformed => Rejection::MalformedFen,
                        SetupError::Invalid => Rejection::InvalidPosition,
                    };
                    return silent_step(Some(rejected));
                },
            }
        } else {
            self.game.clone()
        };
        proof {
            assert(game.board == base);
            assert(base_ok(startpos, fen));
        }
        let mut i: usize = 0;
        while i < moves.len()
            invariant
                i <= moves@.len(),
                *self == *old(self),
                base == base_board(*old(self), startpos, fen),
                texts == move_texts(moves@),
                base_ok(startpos, fen),
                texts_resolve(base, texts.take(i as int)),
                game.board == apply_texts(base, texts.take(i as int)),
            decreases moves@.len() - i,
        {
            proof {
                assert(texts[i as int] == moves@[i as int]@);
            }
            match game.from_text(moves[i].as_str()) {
                Ok(m) => {
                    proof {
                        assert(texts.take(i + 1).drop_last() =~= texts.take(i as int));
                        assert(texts.take(i + 1).last() == texts[i as int]);
                    }
                    game.apply(&m);
                },
                Err(e) => {
                    proof {
                        if texts_resolve(base, texts) {
                            lemma_texts_resolve_prefix(base, texts, i as int);
                        }
                        assert(!texts_resolve(base, texts));
                    }
                    let rejected = match e {
                        MoveError::Malformed => Rejection::MalformedMove,
                        MoveError::Illegal => Rejection::IllegalMove,
                    };
                    return silent_step(Some(rejected));
                },
            }
            i = i + 1;
        }
        proof {
            assert(texts.take(moves@.len() as int) =~= texts);
        }
        let seat = game.turn();
        self.game = game;
        self.seat = seat;
        silent_step(None)
    }

    /// Turn a search's verdict into the reply owed for it: the chosen action
    /// as a best-move reply, or no reply when the search had no action.
    pub fn search_reply(&self, chosen: Option<shakmaty::Move>) -> (r: Option<Reply>)
        ensures
            search_reply_post(chosen, r),
    {
        match chosen {
            None => None,
            Some(m) => Some(Reply::BestMove(self.game.to_text(&m))),
        }
    }
}

} // verus!
