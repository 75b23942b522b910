//! The bridge between the mobile clients of a team chase game and the
//! engine that runs the game.
//!
//! A client speaks the wire protocol of `protocol`; the engine takes the
//! commands and sends the answers and broadcasts of `engine::commands`. The
//! bridge stands between the two and translates: it logs a client in
//! (`handshake`), turns its requests into commands, the engine's answers
//! and broadcasts into notifications (`translate`), and keeps the three
//! streams of an established connection apart and in order (`session`).
//! Beside that it takes picture uploads through a side channel (`ingest`,
//! `api`) and cuts the byte stream of a socket into frames (`frame`).
//!
//! The library decides and computes; it reads no socket and starts nothing.
//! What it decides is stated in the contract of each function, over the
//! views of the values involved, and proved.

pub mod api;
pub mod clock;
pub mod convert;
pub mod engine;
pub mod error;
pub mod event;
pub mod fault;
pub mod frame;
pub mod handshake;
pub mod ingest;
pub mod location;
pub mod membership;
pub mod picture;
pub mod protocol;
pub mod roster;
pub mod session;
pub mod text;
pub mod translate;
pub mod views;

pub use crate::error::ClientError;
pub use crate::event::Event;
pub use crate::location::{DetailedLocation, MinimalLocation};
pub use crate::picture::{JuhuiPicture, PictureKind, PictureWrapper};
pub use crate::protocol::{Everything, State, ToApp, ToAppPackage, ToServer, ToServerPackage};
pub use crate::roster::{Challenge, CompletedChallenge, Player, Team};
