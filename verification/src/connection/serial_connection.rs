//! Line parameters of a serial port and the bytes of a terminated command.

use std::time::Duration;
use vstd::prelude::*;
use vstd::string::{StrSliceExecFns, StringSliceAdditionalSpecFns};

verus! {

/// Carriage return, the usual command terminator.
pub const CR: u8 = 13;

/// Line feed.
pub const LF: u8 = 10;

/// The time span that `Duration::from_millis` makes of a number of
/// milliseconds.
pub uninterp spec fn duration_of_millis(millis: u64) -> Duration;

/// `Duration::from_millis` is a function of its argument alone: the same
/// number of milliseconds always gives the same time span. Nothing is
/// claimed of what that span holds.
pub assume_specification[ Duration::from_millis ](millis: u64) -> (duration: Duration)
    ensures
        duration == duration_of_millis(millis),
;

/// Number of bits per character.
#[derive(Clone, Copy, Debug, PartialEq, Eq, Structural)]
pub enum DataBits {
    Five,
    Six,
    Seven,
    Eight,
}

/// Who may send, and when.
#[derive(Clone, Copy, Debug, PartialEq, Eq, Structural)]
pub enum FlowControl {
    /// No flow control.
    Off,
    /// XON/XOFF bytes.
    Software,
    /// RTS/CTS signals.
    Hardware,
}

/// The error-detection bit sent with each character.
#[derive(Clone, Copy, Debug, PartialEq, Eq, Structural)]
pub enum Parity {
    /// No parity bit.
    Off,
    /// The parity bit makes the number of 1 bits odd.
    Odd,
    /// The parity bit makes the number of 1 bits even.
    Even,
}

/// Number of stop bits sent after each character.
#[derive(Clone, Copy, Debug, PartialEq, Eq, Structural)]
pub enum StopBits {
    One,
    Two,
}

/// The parameters that a serial line is opened with.
///
/// The six fields are set together and stored as given: no combination is
/// rejected here, a baud rate of 0 included. Whether a device takes them
/// shows when the port is opened.
#[derive(Clone, Copy, Debug, PartialEq, Eq)]
pub struct SerialConnectionConfig {
    /// Bits per second.
    pub baud_rate: u32,
    pub data_bits: DataBits,
    pub flow_control: FlowControl,
    pub parity: Parity,
    pub stop_bits: StopBits,
    /// How long a read or a write may take.
    pub timeout: Duration,
}

impl SerialConnectionConfig {
    /// A configuration that holds exactly the six values given.
    pub fn new(
        baud_rate: u32,
        data_bits: DataBits,
        flow_control: FlowControl,
        parity: Parity,
        stop_bits: StopBits,
        timeout: Duration,
    ) -> (config: Self)
        ensures
            config.baud_rate == baud_rate,
            config.data_bits == data_bits,
            config.flow_control == flow_control,
            config.parity == parity,
            config.stop_bits == stop_bits,
            config.timeout == timeout,
    {
        Self { baud_rate, data_bits, flow_control, parity, stop_bits, timeout }
    }
}

impl Default for SerialConnectionConfig {
    /// The factory defaults, the same on every call.
    fn default() -> (config: Self)
        ensures
            config.baud_rate == 115200,
            config.data_bits == DataBits::Eight,
            config.flow_control == FlowControl::Off,
            config.parity == Parity::Off,
            config.stop_bits == StopBits::One,
            config.timeout == duration_of_millis(10),
    {
        Self {
            baud_rate: 115200,
            data_bits: DataBits::Eight,
            flow_control: FlowControl::Off,
            parity: Parity::Off,
            stop_bits: StopBits::One,
            timeout: Duration::from_millis(10),
        }
    }
}

/// Why an operation on the port did not complete. Each failure carries what
/// the device reported.
#[derive(Debug, PartialEq, Eq)]
pub enum ConnectionError {
    /// The device could not be opened with the requested parameters: it is
    /// missing, busy or out of reach, or its driver rejects them.
    Open { cause: String },
    /// The device did not take the bytes.
    Write { cause: String },
}

impl ConnectionError {
    /// The fixed diagnostic of each class of failure.
    pub open spec fn diagnostic(self) -> Seq<char> {
        match self {
            ConnectionError::Open { .. } => "[ERROR]: Unable to Open Serial Port"@,
            ConnectionError::Write { .. } => "[ERROR]: Unable to Write String to Serial Port"@,
        }
    }

    /// The diagnostic to show for this failure.
    pub fn message(&self) -> (text: String)
        ensures
            text@ == self.diagnostic(),
    {
        match self {
            ConnectionError::Open { .. } => "[ERROR]: Unable to Open Serial Port".to_owned(),
            ConnectionError::Write { .. } => {
                "[ERROR]: Unable to Write String to Serial Port".to_owned()
            },
        }
    }
}

/// The bytes of a command followed by its terminator.
pub open spec fn terminated(bytes: Seq<u8>, terminator: u8) -> Seq<u8> {
    bytes.push(terminator)
}

/// What a connection is, to its contracts: the path of its device and the
/// parameters that the device was opened with.
pub struct SerialConnectionView {
    pub serial_path: Seq<char>,
    pub config: SerialConnectionConfig,
}

/// An open serial line: the device's path and the parameters it was opened
/// with, neither of which changes afterwards.
///
/// A value exists only for a device that was opened. The port itself stays
/// with the caller, who writes to it the bytes that the methods return and
/// reports how that went.
pub struct SerialConnection {
    serial_path: String,
    serial_connection_config: SerialConnectionConfig,
}

impl View for SerialConnection {
    type V = SerialConnectionView;

    closed spec fn view(&self) -> SerialConnectionView {
        SerialConnectionView {
            serial_path: self.serial_path@,
            config: self.serial_connection_config,
        }
    }
}

impl SerialConnection {
    /// The connection to the device at `serial_path`, given how opening it
    /// with `serial_connection_config` went: the connection when `opened` is
    /// `Ok`, else the open failure with the cause reported.
    pub fn new(
        serial_path: String,
        serial_connection_config: SerialConnectionConfig,
        opened: Result<(), String>,
    ) -> (connection: Result<Self, ConnectionError>)
        ensures
            match opened {
                Ok(_) => connection matches Ok(c) && c@ == (SerialConnectionView {
                    serial_path: serial_path@,
                    config: serial_connection_config,
                }),
                Err(cause) => connection == Err::<Self, ConnectionError>(
                    ConnectionError::Open { cause },
                ),
            },
    {
        match opened {
            Ok(_) => Ok(Self { serial_path, serial_connection_config }),
            Err(cause) => Err(ConnectionError::Open { cause }),
        }
    }

    /// The path that the device was opened under.
    pub fn serial_path(&self) -> (path: &String)
        ensures
            path@ == self@.serial_path,
    {
        &self.serial_path
    }

    /// The parameters that the device was opened with.
    pub fn config(&self) -> (config: SerialConnectionConfig)
        ensures
            config == self@.config,
    {
        self.serial_connection_config
    }

    /// The bytes of `string` with the one byte `terminator` after them. Any
    /// byte may terminate, not only `CR` and `LF`.
    pub fn terminate_string(&self, string: &str, terminator: u8) -> (bytes: Vec<u8>)
        ensures
            bytes@ == terminated(string.spec_bytes(), terminator),
            bytes@.len() == string.spec_bytes().len() + 1,
            bytes@.subrange(0, string.spec_bytes().len() as int) == string.spec_bytes(),
            bytes@.last() == terminator,
    {
        let mut bytes = string.as_bytes_vec();
        bytes.push(terminator);
        bytes
    }

    /// What goes on the line for `string`: its bytes as they are.
    pub fn write_string(&self, string: &str) -> (payload: Vec<u8>)
        ensures
            payload@ == string.spec_bytes(),
    {
        string.as_bytes_vec()
    }

    /// What goes on the line for `command`: exactly the bytes of the
    /// terminated command, no more and no less.
    pub fn send_command(&self, command: &str, terminator: u8) -> (payload: Vec<u8>)
        ensures
            payload@ == terminated(command.spec_bytes(), terminator),
    {
        self.terminate_string(command, terminator)
    }

    /// The result of a write, given how the device took the payload: done
    /// when `outcome` is `Ok`, else the write failure with the cause reported.
    pub fn written(&self, outcome: Result<(), String>) -> (result: Result<(), ConnectionError>)
        ensures
            match outcome {
                Ok(_) => result is Ok,
                Err(cause) => result == Err::<(), ConnectionError>(
                    ConnectionError::Write { cause },
                ),
            },
    {
        match outcome {
            Ok(_) => Ok(()),
            Err(cause) => Err(ConnectionError::Write { cause }),
        }
    }
}

} // verus!
