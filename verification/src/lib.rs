//! The logic of a chat daemon that serves Matrix accounts over JSON-RPC, and of the
//! command-line client that drives it.
//!
//! The daemon's state changes in steps: a request starts, says what is to be performed
//! outside, and goes on with what came of it.

pub mod account_calls;
pub mod account_laws;
pub mod account_rpc;
pub mod args;
pub mod client_laws;
pub mod config;
pub mod ctl;
pub mod ctl_text;
pub mod daemon;
pub mod events;
pub mod fetch;
pub mod invariants;
pub mod json;
pub mod login;
pub mod matrix;
pub mod page_calls;
pub mod page_laws;
pub mod plain_laws;
pub mod request_laws;
pub mod requests;
pub mod room_calls;
pub mod room_laws;
pub mod rpc;
pub mod rpc_laws;
pub mod state;
pub mod strmap;
pub mod subscription_laws;
pub mod subscriptions;
pub mod text;
pub mod text_laws;
pub mod verification;
pub mod verification_calls;
pub mod verification_laws;
