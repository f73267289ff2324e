//! Engine-side driver for a line-oriented chess protocol: a verified position
//! adapter over an external rules engine, a per-move time-budget policy, a
//! move-text translator, and the session dispatcher that ties them together.

pub mod board;
pub mod game;
pub mod session;
pub mod timing;

pub use board::{MoveError, Position, SetupError};
pub use game::{Seat, Role, Piece, Outcome};
pub use session::{Command, Rejection, Reply, Session, Step};
pub use timing::TimeControl;
