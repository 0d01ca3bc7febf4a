//! Lifecycle and hand-off rules for a multiplexed transport connection and
//! its streams, stated as contracts over plain values.

pub mod accept_loop;
pub mod cancel_with_value;
pub mod client;
pub mod connection;
pub mod pairing;
pub mod read_loop;
pub mod stream;
pub mod take_once;
pub mod transport;
