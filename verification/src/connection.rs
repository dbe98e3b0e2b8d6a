//! The serial connection and its line parameters.

pub mod serial_connection;
