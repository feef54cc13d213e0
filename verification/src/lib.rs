//! Verified protocol core for the micromouse simulator's text interface.
//!
//! The simulator is driven over a half-duplex text channel: one command
//! line goes out, and for most commands one response line comes back.
//! This crate holds both ends of that exchange as functions on plain
//! values. `MmsApi` makes the request of each operation and interprets
//! the line that answers it; the transport in between belongs to the
//! caller. `c_api` holds the same operations as a foreign caller sees
//! them, with string arguments as bytes and results in owned buffers.

pub mod api;
pub mod c_api;
pub mod color;
pub mod direction;
pub mod error;
pub mod request;
pub mod stat;
pub mod text;

pub use api::MmsApi;
pub use color::CellColor;
pub use direction::Direction;
pub use error::MmsError;
pub use request::Distance;
pub use request::ReplyKind;
pub use request::Request;
pub use stat::Stat;
pub use stat::StatQuery;
