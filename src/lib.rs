//! Decision logic of an asynchronous positioned-I/O file handle.
//!
//! The handle itself lives with an async runtime and the operating system;
//! this crate holds, with proofs, every choice that the handle makes: which
//! backend serves a file, how a raw system call result becomes a byte count,
//! how a kernel AIO control block moves from submission to retrieval, how an
//! overlapped request hands its result to the polling task, and how a large
//! transfer is cut into requests that the platform accepts.
pub mod aio;
pub mod chunk;
pub mod dispatch;
pub mod error;
pub mod options;
pub mod overlapped;
pub mod posio;
pub mod ring;
