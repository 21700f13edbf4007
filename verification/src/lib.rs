//! The engine of a desktop client for a remote file store.
//!
//! The crate holds the state of one session (credentials, bearer token and its
//! expiry), the local mirror of the remote file list with its selection and
//! search filter, and the rules that turn user intents and server replies into
//! the next state and the next request. It performs no I/O itself: a driver
//! sends each [`transport::Request`] and hands back the [`transport::Reply`].

pub mod app;
pub mod clock;
pub mod error;
pub mod handlers;
pub mod icon;
pub mod inventory;
pub mod json;
pub mod sequences;
pub mod session;
pub mod text;
pub mod transfer;
pub mod transport;
