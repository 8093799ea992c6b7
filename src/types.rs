//! Plain enumerations shared by the game records.
use vstd::prelude::*;

verus! {

/// The lifecycle state of a game.
///
/// `Pending` games accept and release players, `Ongoing` games are being
/// played, and `Ended` is terminal.
#[derive(Clone, Copy, Debug, PartialEq, Eq, Structural)]
pub enum GameStatus {
    /// Game created, accepting players.
    Pending,
    /// Game is actively being played.
    Ongoing,
    /// Game has concluded.
    Ended,
}

/// Determines who can join a game.
#[derive(Clone, Copy, Debug, PartialEq, Eq, Structural)]
pub enum GameType {
    /// Open to any registered player.
    PublicGame,
    /// Restricted; requires a matching join code.
    PrivateGame,
}

/// The piece a player chooses to represent them on the board.
#[derive(Clone, Copy, Debug, PartialEq, Eq, Structural)]
pub enum PlayerSymbol {
    Hat,
    Car,
    Dog,
    Thimble,
    Iron,
    Battleship,
    Boot,
    Wheelbarrow,
}

} // verus!
