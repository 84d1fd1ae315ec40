//! A minimal single-file HTTP server library.
//!
//! The library holds the pure logic of the server: rendering the
//! `Content-Length` value in decimal, deriving the attachment file name
//! from a path, building the fixed HTTP response byte-for-byte, and the
//! decisions of the non-blocking accept loop. The surrounding program
//! supplies the sockets, the file system, the timer and the signal
//! handler, and hands this library plain values.

pub mod decimal;
pub mod filename;
pub mod response;
pub mod server;
