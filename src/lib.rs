//! A bridge between an application and a callback-driven host HTTP API.
//!
//! The host reaches application state only through opaque tokens that it
//! hands back unchanged; every decision about what to hand to the host, and
//! how to read what comes back, is made here and proved.

pub mod c_str;
pub mod channel;
pub mod error;
pub mod fatal;
pub mod http;
pub mod laws;
pub mod net_err;
pub mod network;
pub mod slots;
pub mod text;
