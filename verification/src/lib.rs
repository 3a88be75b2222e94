//! The rules of a small realtime chat server: registration, password login with
//! a mailed one-time code, sessions, password resets, and the routing of
//! end-to-end encrypted messages between open sockets.
//!
//! Every function here works on plain values. Databases, mail servers, sockets
//! and JSON are the business of the program around the library.

pub mod auth;
pub mod clock;
pub mod cookie;
pub mod guarantees;
pub mod ids;
pub mod mail;
pub mod password;
pub mod phc;
pub mod reply;
pub mod room;
pub mod state;
pub mod text;

pub use auth::two_fa::OtpEntry;
pub use room::socket::{Connection, Session};
pub use state::AppState;
