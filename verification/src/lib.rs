//! OAuth2 authorization and token lifecycle for a desktop uploader.
//!
//! The library holds the rules: which parameters an authorization request
//! carries, how a loopback redirect is read, when a stored token counts as
//! expired, and what to do about it. Reading sockets, files and the network is
//! left to the program around it, which feeds this crate plain values.

pub mod clock;
pub mod cli;
pub mod config;
pub mod secrets;
pub mod text;
pub mod pkce;
pub mod error;
pub mod provider;
pub mod callback;
pub mod exchange;
pub mod flow;
pub mod lifecycle;
pub mod platforms;
pub mod version;
pub mod updater;
pub mod status;
pub mod upload;
pub mod audio;

