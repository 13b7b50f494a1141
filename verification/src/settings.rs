//! The declarative, platform-neutral serial port configuration.
//!
//! A `SerialPortSettings` value is pure data: it describes the baud rate,
//! framing, timeouts and flow-control discipline a caller wants, and is
//! translated into native terminal state by the platform modules.

use vstd::prelude::*;

verus! {

/// Flow control method
#[derive(Debug, Copy, Clone, PartialEq, Eq, PartialOrd, Ord, Structural)]
pub enum FlowControl {
    /// No flow control
    Disabled,
    /// DSR DTR flow control (Software)
    DsrDtr,
    /// XON XOFF flow control (Software)
    XonXoff,
    /// CTS RTS flow control (Hardware)
    RtsCts,
}

/// Bytesize for serial port
#[derive(Debug, Copy, Clone, PartialEq, Eq, PartialOrd, Ord, Structural)]
pub enum ByteSize {
    /// 5 bits
    Five,
    /// 6 bits
    Six,
    /// 7 bits
    Seven,
    /// 8 bits
    Eight,
}

/// Parity definitions
#[derive(Debug, Copy, Clone, PartialEq, Eq, PartialOrd, Ord, Structural)]
pub enum Parity {
    /// No parity
    Disabled,
    /// Even parity
    Even,
    /// Odd parity
    Odd,
}

/// Stop bits for serial port
#[derive(Debug, Copy, Clone, PartialEq, Eq, PartialOrd, Ord, Structural)]
pub enum StopBits {
    /// 1 stop bit
    One,
    /// 1.5 stop bits
    OnePointFive,
    /// 2 stop bits
    Two,
}

/// Serial port settings
#[derive(Debug, Copy, Clone, PartialEq, Eq, PartialOrd, Ord)]
pub struct SerialPortSettings {
    /// Requested baud rate in bits per second
    pub baud_rate: u32,
    /// Data bits per character
    pub byte_size: ByteSize,
    /// Parity discipline
    pub parity: Parity,
    /// Stop bit count
    pub stop_bits: StopBits,
    /// Read timeout in milliseconds; `None` blocks until data arrives
    pub read_timeout: Option<u128>,
    /// Flow control discipline; exactly one is active at a time
    pub flow_control: FlowControl,
    /// Write timeout in milliseconds; `None` blocks until the write completes
    pub write_timeout: Option<u128>,
    /// Inter-byte timeout; bounded by the platform's VMIN/VTIME range
    pub inter_byte_timeout: Option<u128>,
    /// Whether the device is opened in blocking mode
    pub blocking: bool,
}

impl Default for SerialPortSettings {
    /// The fixed baseline: 9600-8-N-1, no flow control, no timeout.
    fn default() -> (r: Self)
        ensures
            r == SerialPortSettings::baseline(),
    {
        Self {
            baud_rate: 9600,
            byte_size: ByteSize::Eight,
            parity: Parity::Disabled,
            stop_bits: StopBits::One,
            read_timeout: None,
            write_timeout: None,
            flow_control: FlowControl::Disabled,
            inter_byte_timeout: None,
            blocking: true,
        }
    }
}

impl SerialPortSettings {
    /// The default configuration: 9600 baud, eight data bits, no parity,
    /// one stop bit, no flow control, blocking with no timeouts.
    pub open spec fn baseline() -> Self {
        SerialPortSettings {
            baud_rate: 9600,
            byte_size: ByteSize::Eight,
            parity: Parity::Disabled,
            stop_bits: StopBits::One,
            read_timeout: None,
            write_timeout: None,
            flow_control: FlowControl::Disabled,
            inter_byte_timeout: None,
            blocking: true,
        }
    }

    /// Set baud rate
    pub fn baud(self, baud: u32) -> (r: Self)
        ensures
            r == (SerialPortSettings { baud_rate: baud, ..self }),
    {
        SerialPortSettings { baud_rate: baud, ..self }
    }

    /// Set read timeout in milliseconds
    pub fn read_timeout(self, timeout: Option<u128>) -> (r: Self)
        ensures
            r == (SerialPortSettings { read_timeout: timeout, ..self }),
    {
        SerialPortSettings { read_timeout: timeout, ..self }
    }

    /// Set data bits per character
    pub fn byte_size(self, byte_size: ByteSize) -> (r: Self)
        ensures
            r == (SerialPortSettings { byte_size: byte_size, ..self }),
    {
        SerialPortSettings { byte_size: byte_size, ..self }
    }

    /// Set write timeout in milliseconds
    pub fn write_timeout(self, timeout: Option<u128>) -> (r: Self)
        ensures
            r == (SerialPortSettings { write_timeout: timeout, ..self }),
    {
        SerialPortSettings { write_timeout: timeout, ..self }
    }

    /// Set parity discipline
    pub fn parity(self, parity: Parity) -> (r: Self)
        ensures
            r == (SerialPortSettings { parity: parity, ..self }),
    {
        SerialPortSettings { parity: parity, ..self }
    }

    /// Set stop bit count
    pub fn stop_bits(self, stop_bits: StopBits) -> (r: Self)
        ensures
            r == (SerialPortSettings { stop_bits: stop_bits, ..self }),
    {
        SerialPortSettings { stop_bits: stop_bits, ..self }
    }

    /// Set the flow control discipline
    pub fn set_flow_control(self, method: FlowControl) -> (r: Self)
        ensures
            r == (SerialPortSettings { flow_control: method, ..self }),
    {
        SerialPortSettings { flow_control: method, ..self }
    }

    /// Set blocking mode
    pub fn set_blocking(self, blocking: bool) -> (r: Self)
        ensures
            r == (SerialPortSettings { blocking: blocking, ..self }),
    {
        SerialPortSettings { blocking: blocking, ..self }
    }

}

} // verus!
