//! A library for writing Chatto bots: the requests a bot sends, the frames it
//! exchanges on the realtime socket, and how incoming events are routed to
//! handlers, each with a contract checked by Verus.

pub mod bot;
pub mod ctx;
pub mod error;
pub mod events;
pub mod listen;
pub mod model;
pub mod realtime;
pub mod uri;

pub use bot::Bot;
pub use ctx::Ctx;
pub use error::{CResult, ChurroError};
