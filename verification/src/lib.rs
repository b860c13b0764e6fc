//! On-device session and persistence engine for a FROST-style distributed
//! key generation (DKG) protocol.
//!
//! The engine accumulates multi-packet commands into a bounded session
//! buffer, parses them without materializing more than one array element at
//! a time, threads round state through a durable key-material store, and
//! re-emits responses in transport-sized chunks. The cryptographic round
//! computations themselves are performed by outside libraries and are
//! reached only through a small set of trusted wrappers.

pub mod error;
pub mod buffer;
pub mod context;
pub mod accumulator;
pub mod store;
pub mod deserialize;
pub mod parser;
pub mod emitter;
pub mod crypto;
pub mod keys;
pub mod handlers;
pub mod instruction;
pub mod utils;
