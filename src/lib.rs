//! Membership state machine of a fixed-capacity game lobby.
//!
//! A lobby records its creator, a family tag, a capacity and an ordered
//! roster of joined accounts, and moves from `Registering` to `InPlay` as
//! soon as the roster is full.

pub mod account;
pub mod laws;
pub mod lobby;

pub use account::AccountId;
pub use lobby::{Error, GameLobby, LobbyState};
