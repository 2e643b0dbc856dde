//! Why an action or a message was turned down.

use vstd::prelude::*;

verus! {

/// The reasons for which a step is refused. A refused step changes nothing and sends
/// nothing.
#[derive(Debug, Clone, Copy, PartialEq, Eq, Structural)]
pub enum GameError {
    /// The text given for a peer is not a chain address.
    InvalidAddress,
    /// The room already has its opponent.
    RoomFull,
    /// The acting chain is neither the host nor the opponent of the room.
    NotAuthorized,
    /// A round was reported while no match was in progress.
    MatchNotInProgress,
    /// The step needs a room and there is none.
    NoActiveRoom,
    /// A lobby was asked for on a chain that already holds a room.
    AlreadyInRoom,
}

} // verus!
