//! A live chat-ingestion core: a pure event formatter, a bounded render
//! sink with a two-threshold trim policy, a worker state machine for the
//! feed connection, and a supervisor that owns the connect/disconnect
//! lifecycle.

pub mod event;
pub mod sink;
pub mod supervisor;
pub mod worker;
