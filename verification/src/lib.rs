//! Decision core of the Velmora desktop launcher.
//!
//! The launcher logs a player in, reads the realm's pages, prepares and checks the assets on
//! disk, opens the game in a window of its own, and feels the server's pulse to notify the
//! player. What it sends, what it makes of the answers, what it keeps on disk and what it
//! shows are decided here, on plain values; sending, writing and showing are left to the
//! application around it.
//!
//! A command that alternates between the outside and decisions is a step function: from where
//! it stands and what it learns to where it stands next and what it asks for.

pub mod api;
pub mod assets;
pub mod error;
pub mod json;
pub mod launch;
pub mod pulse;
pub mod session;
pub mod setup;
pub mod store;
pub mod text;
pub mod tray;
pub mod update;
pub mod window;
