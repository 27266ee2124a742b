//! The decisions of a bookstore backend, with the authentication at their
//! centre: signed session tokens, the session registry, the checks in front
//! of protected routes, and the flows of registration, login and logout.
//!
//! The library reaches no store and no network. Where a flow waits on the
//! credential store or the registry, it is written as a state machine: the
//! caller asks for the command of the current state, performs it, and hands
//! the reply back as an event.

pub mod amount;
pub mod book;
pub mod cache;
pub mod catalog;
pub mod cookie;
pub mod gate;
pub mod ident;
pub mod laws;
pub mod login;
pub mod logout;
pub mod password;
pub mod register;
pub mod registry;
pub mod response;
pub mod role;
pub mod schema;
pub mod settings;
pub mod store;
pub mod text;
pub mod token;
pub mod user;
