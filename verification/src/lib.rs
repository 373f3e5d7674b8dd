//! Verified core of the abun.ch backend: link bunches under short URLs,
//! password-protected bunches, accounts and login sessions.
//!
//! The HTTP server, the database and JSON encoding live around this crate;
//! everything that decides something lives here, with its contract.
pub mod error;
pub mod bunch_url;
pub mod text;
pub mod password;
pub mod model;
pub mod clock;
pub mod api;
pub mod db;
pub mod cors;
pub mod laws;
