//! Core logic of an HOTP (HMAC-based one-time password) console application:
//! a key-slot store, the HOTP truncation algorithm, a line reader, a command
//! interpreter, and the state machine of an asynchronous HMAC offload call.

pub mod bench;
pub mod hotp;
pub mod interp;
pub mod line;
pub mod offload;
pub mod store;
pub mod text;
