//! A cross-platform serial port abstraction.
//!
//! One declarative settings model is translated into the two divergent
//! native device configurations: POSIX terminal attributes (termios flags,
//! the fixed baud table, VMIN/VTIME) and the Windows device control block
//! (DCB bit fields and communication timeouts). The translation, the
//! timeout-bounded read/write decision logic and the device-identifier
//! parsing are verified here; the platform system calls themselves live
//! outside the library and consume the configurations it computes.

use vstd::prelude::*;

pub mod error;
pub mod parse;
pub mod port;
pub mod posix;
pub mod settings;
pub mod windows;

pub use error::SerialError;
pub use error::SerialResult;
pub use port::ModemLine;
pub use port::PortInfo;
pub use port::PortScanner;
pub use port::SerialPort;
pub use settings::ByteSize;
pub use settings::FlowControl;
pub use settings::Parity;
pub use settings::SerialPortSettings;
pub use settings::StopBits;

verus! {

/// A read or a write on an empty buffer returns zero at once on both
/// backends, before any device state is consulted.
pub proof fn lemma_zero_length_transfers(s: SerialPortSettings, in_queue: u32)
    ensures
        posix::read_plan_of(s, 0) == posix::TransferPlan::Empty,
        posix::write_plan_of(s, 0) == posix::TransferPlan::Empty,
        windows::read_request_of(s, in_queue, 0) == windows::WinReadRequest::Empty,
        windows::write_request_of(s, 0) == windows::WinWriteRequest::Empty,
{
}

} // verus!
