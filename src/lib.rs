//! Client-side bridge to a TigerBeetle cluster: fixed-layout records and
//! their wire codec, status-code mapping, reply decoding, and the slot pool
//! that bounds in-flight requests and hands each request's context back
//! exactly once.

pub mod codec;
pub mod account;
pub mod balance;
pub mod filter;
pub mod transfer;
pub mod operation;
pub mod error;
pub mod reply;
pub mod pool;
pub mod handoff;
pub mod low;
pub mod request;

pub use account::Account;
pub use transfer::Transfer;
