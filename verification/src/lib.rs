//! A tiny travel-destination service, as a verified library.
//!
//! A request names a destination in its query string. A destination on the
//! allow-list becomes the current destination; any other candidate resets the
//! current destination to the default. The current destination is shared by
//! all connections through a lock whose invariant admits only the default and
//! the entries of the allow-list.

pub mod text;

pub mod request;
pub mod controller;
pub mod validator;
pub mod state;
pub mod cell;
pub mod handler;
pub mod laws;
pub mod server;

pub use controller::{Controller, TravelController};
pub use server::Server;
