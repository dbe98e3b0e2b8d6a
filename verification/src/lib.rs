//! Configuration of a serial line and terminated writes to it.
//!
//! The crate holds no port: it says, and proves, which parameters a port is
//! opened with and which bytes are put on the line, and leaves the device to
//! the caller.

pub mod connection;
