//! Lifecycle of a multiplayer Tycoon board-game session: membership of a
//! pending lobby, escrowed stakes and their refunds, and the records that
//! hold them.

pub mod types;
pub mod game;
pub mod events;
pub mod session;
pub mod contract;
