//! Server-side decisions: leadership and the game tick schedule, and the
//! rules of the use cases.
pub mod leader;
pub mod error;
pub mod action;
pub mod user;
pub mod ids;
pub mod admin;
pub mod auth;
pub mod economy;
pub mod init;
