//! The Windows backend's verified logic.
//!
//! The reconfiguration algorithm is a pure function from the declarative
//! settings to the device-control-block fields and the communication
//! timeouts to commit; unlike the POSIX side it can encode every
//! requested configuration, so it never fails on the settings. The
//! read/write decision logic — how much to request, and what a native
//! completion means — is here too. The platform glue queries the device,
//! patches in these fields, and issues the native calls.

use vstd::prelude::*;

use crate::settings::ByteSize;
use crate::settings::FlowControl;
use crate::settings::Parity;
use crate::settings::SerialPortSettings;
use crate::settings::StopBits;

verus! {

/// Parity disabled in the device control block.
pub const NO_PARITY: u8 = 0;

/// Odd parity in the device control block.
pub const ODD_PARITY: u8 = 1;

/// Even parity in the device control block.
pub const EVEN_PARITY: u8 = 2;

/// One stop bit in the device control block.
pub const ONE_STOP_BIT: u8 = 0;

/// One and a half stop bits in the device control block.
pub const ONE5_STOP_BITS: u8 = 1;

/// Two stop bits in the device control block.
pub const TWO_STOP_BITS: u8 = 2;

/// RTS line held low.
pub const RTS_CONTROL_DISABLE: u32 = 0;

/// RTS line driven by hardware handshaking.
pub const RTS_CONTROL_HANDSHAKE: u32 = 2;

/// DTR line held low.
pub const DTR_CONTROL_DISABLE: u32 = 0;

/// DTR line driven by hardware handshaking.
pub const DTR_CONTROL_HANDSHAKE: u32 = 2;

/// The character that resumes transmission under software flow control.
pub const XON_CHAR: u8 = 17;

/// The character that suspends transmission under software flow control.
pub const XOFF_CHAR: u8 = 19;

/// The sentinel timeout interval: a read returns at once with whatever
/// is buffered.
pub const MAX_TIMEOUT_SENTINEL: u32 = 0xFFFF_FFFF;

/// The native success code.
pub const ERROR_SUCCESS: u32 = 0;

/// The native code reporting that an overlapped operation is pending.
pub const ERROR_IO_PENDING: u32 = 997;

/// The native code reporting that an operation was aborted, for example
/// by a racing purge or close.
pub const ERROR_OPERATION_ABORTED: u32 = 995;

/// The native code reporting an unusable caller buffer.
pub const ERROR_INVALID_USER_BUFFER: u32 = 1784;

/// The native code reporting memory exhaustion.
pub const ERROR_NOT_ENOUGH_MEMORY: u32 = 8;

/// Every device-control-block field the reconfiguration algorithm
/// writes, as named fields. Fields it never touches stay in the native
/// structure and are preserved by the glue that writes this
/// configuration back.
#[derive(Debug, Copy, Clone, PartialEq, Eq, Structural)]
pub struct DcbConfig {
    /// The requested baud rate, passed through verbatim
    pub baud_rate: u32,
    /// Data bits per character, five through eight
    pub byte_size: u8,
    /// The parity byte: [`NO_PARITY`], [`ODD_PARITY`] or [`EVEN_PARITY`]
    pub parity: u8,
    /// fParity: parity checking enabled
    pub parity_check_enabled: bool,
    /// The stop-bit encoding: [`ONE_STOP_BIT`], [`ONE5_STOP_BITS`] or
    /// [`TWO_STOP_BITS`]
    pub stop_bits: u8,
    /// fBinary: raw binary transfers, mandatory for this layer
    pub binary_mode: bool,
    /// fRtsControl: [`RTS_CONTROL_DISABLE`] or [`RTS_CONTROL_HANDSHAKE`]
    pub rts_control: u32,
    /// fOutxCtsFlow: output obeys CTS
    pub outx_cts_flow: bool,
    /// fDtrControl: [`DTR_CONTROL_DISABLE`] or [`DTR_CONTROL_HANDSHAKE`]
    pub dtr_control: u32,
    /// fOutxDsrFlow: output obeys DSR
    pub outx_dsr_flow: bool,
    /// fOutX: software flow control on output
    pub out_x: bool,
    /// fInX: software flow control on input
    pub in_x: bool,
    /// fNull: discard null bytes on input
    pub null_strip: bool,
    /// fErrorChar: replace bytes with parity errors
    pub error_char: bool,
    /// fAbortOnError: abort all operations after an error
    pub abort_on_error: bool,
    /// XonChar
    pub xon_char: u8,
    /// XoffChar
    pub xoff_char: u8,
}

/// The communication-timeout fields committed alongside the device
/// control block.
#[derive(Debug, Copy, Clone, PartialEq, Eq, Structural)]
pub struct CommTimeouts {
    /// ReadIntervalTimeout: the longest gap allowed between two received
    /// bytes, or the sentinel for "return at once"
    pub read_interval_timeout: u32,
    /// ReadTotalTimeoutMultiplier
    pub read_total_timeout_multiplier: u32,
    /// ReadTotalTimeoutConstant
    pub read_total_timeout_constant: u32,
    /// WriteTotalTimeoutMultiplier
    pub write_total_timeout_multiplier: u32,
    /// WriteTotalTimeoutConstant
    pub write_total_timeout_constant: u32,
}

/// A millisecond count as the native field carries it: reduced to the
/// field's width, and at least one.
pub open spec fn clamped_ms(t: u128) -> u32 {
    if t % 0x1_0000_0000 < 1 {
        1u32
    } else {
        (t % 0x1_0000_0000) as u32
    }
}

/// The device-control-block fields the settings translate to. The
/// translation is total: this backend encodes every settings value,
/// one-and-a-half stop bits included.
pub open spec fn dcb_for(s: SerialPortSettings) -> DcbConfig {
    DcbConfig {
        baud_rate: s.baud_rate,
        byte_size: match s.byte_size {
            ByteSize::Five => 5u8,
            ByteSize::Six => 6u8,
            ByteSize::Seven => 7u8,
            ByteSize::Eight => 8u8,
        },
        parity: match s.parity {
            Parity::Disabled => NO_PARITY,
            Parity::Even => EVEN_PARITY,
            Parity::Odd => ODD_PARITY,
        },
        parity_check_enabled: s.parity != Parity::Disabled,
        stop_bits: match s.stop_bits {
            StopBits::One => ONE_STOP_BIT,
            StopBits::OnePointFive => ONE5_STOP_BITS,
            StopBits::Two => TWO_STOP_BITS,
        },
        binary_mode: true,
        rts_control: if s.flow_control == FlowControl::RtsCts {
            RTS_CONTROL_HANDSHAKE
        } else {
            RTS_CONTROL_DISABLE
        },
        outx_cts_flow: s.flow_control == FlowControl::RtsCts,
        dtr_control: if s.flow_control == FlowControl::DsrDtr {
            DTR_CONTROL_HANDSHAKE
        } else {
            DTR_CONTROL_DISABLE
        },
        outx_dsr_flow: s.flow_control == FlowControl::DsrDtr,
        out_x: s.flow_control == FlowControl::XonXoff,
        in_x: s.flow_control == FlowControl::XonXoff,
        null_strip: false,
        error_char: false,
        abort_on_error: false,
        xon_char: XON_CHAR,
        xoff_char: XOFF_CHAR,
    }
}

/// The communication timeouts the settings translate to: a zero timeout
/// means "return at once with whatever is buffered", a non-zero timeout
/// bounds the wait in milliseconds, and no timeout blocks until the
/// request is satisfied.
pub open spec fn timeouts_for(s: SerialPortSettings) -> CommTimeouts {
    CommTimeouts {
        read_interval_timeout: match s.read_timeout {
            Some(t) => if t == 0 {
                MAX_TIMEOUT_SENTINEL
            } else {
                match s.inter_byte_timeout {
                    Some(ib) => clamped_ms(ib),
                    None => 0u32,
                }
            },
            None => 0u32,
        },
        read_total_timeout_multiplier: 0u32,
        read_total_timeout_constant: match s.read_timeout {
            Some(t) => if t == 0 {
                0u32
            } else {
                clamped_ms(t)
            },
            None => 0u32,
        },
        write_total_timeout_multiplier: 0u32,
        write_total_timeout_constant: match s.write_timeout {
            Some(t) => if t == 0 {
                MAX_TIMEOUT_SENTINEL
            } else {
                clamped_ms(t)
            },
            None => 0u32,
        },
    }
}

/// Reduces a millisecond count to the native field, keeping it at least
/// one.
fn clamp_ms(t: u128) -> (r: u32)
    ensures
        r == clamped_ms(t),
{
    let low: u32 = (t % 0x1_0000_0000) as u32;
    if low < 1 {
        1
    } else {
        low
    }
}

/// Translates the settings into the device-control-block fields to
/// commit. Total: this backend never rejects a settings value.
pub fn windows_dcb(settings: &SerialPortSettings) -> (r: DcbConfig)
    ensures
        r == dcb_for(*settings),
{
    DcbConfig {
        baud_rate: settings.baud_rate,
        byte_size: match settings.byte_size {
            ByteSize::Five => 5,
            ByteSize::Six => 6,
            ByteSize::Seven => 7,
            ByteSize::Eight => 8,
        },
        parity: match settings.parity {
            Parity::Disabled => NO_PARITY,
            Parity::Even => EVEN_PARITY,
            Parity::Odd => ODD_PARITY,
        },
        parity_check_enabled: match settings.parity {
            Parity::Disabled => false,
            Parity::Even => true,
            Parity::Odd => true,
        },
        stop_bits: match settings.stop_bits {
            StopBits::One => ONE_STOP_BIT,
            StopBits::OnePointFive => ONE5_STOP_BITS,
            StopBits::Two => TWO_STOP_BITS,
        },
        binary_mode: true,
        rts_control: if settings.flow_control == FlowControl::RtsCts {
            RTS_CONTROL_HANDSHAKE
        } else {
            RTS_CONTROL_DISABLE
        },
        outx_cts_flow: settings.flow_control == FlowControl::RtsCts,
        dtr_control: if settings.flow_control == FlowControl::DsrDtr {
            DTR_CONTROL_HANDSHAKE
        } else {
            DTR_CONTROL_DISABLE
        },
        outx_dsr_flow: settings.flow_control == FlowControl::DsrDtr,
        out_x: settings.flow_control == FlowControl::XonXoff,
        in_x: settings.flow_control == FlowControl::XonXoff,
        null_strip: false,
        error_char: false,
        abort_on_error: false,
        xon_char: XON_CHAR,
        xoff_char: XOFF_CHAR,
    }
}

/// Translates the settings into the communication timeouts to commit.
pub fn windows_timeouts(settings: &SerialPortSettings) -> (r: CommTimeouts)
    ensures
        r == timeouts_for(*settings),
{
    let mut t = CommTimeouts {
        read_interval_timeout: 0,
        read_total_timeout_multiplier: 0,
        read_total_timeout_constant: 0,
        write_total_timeout_multiplier: 0,
        write_total_timeout_constant: 0,
    };
    match settings.read_timeout {
        Some(timeout) => {
            if timeout == 0 {
                t.read_interval_timeout = MAX_TIMEOUT_SENTINEL;
            } else {
                t.read_total_timeout_constant = clamp_ms(timeout);
                match settings.inter_byte_timeout {
                    Some(ib) => {
                        t.read_interval_timeout = clamp_ms(ib);
                    },
                    None => {},
                }
            }
        },
        None => {},
    }
    match settings.write_timeout {
        Some(timeout) => {
            if timeout == 0 {
                t.write_total_timeout_constant = MAX_TIMEOUT_SENTINEL;
            } else {
                t.write_total_timeout_constant = clamp_ms(timeout);
            }
        },
        None => {},
    }
    t
}

/// Every stop-bit request is encodable on this backend: the translation
/// is total, and each count maps to its own device-control-block value —
/// one-and-a-half stop bits included, which the POSIX backend rejects.
pub proof fn lemma_windows_accepts_all_stop_bits(s: SerialPortSettings)
    ensures
        s.stop_bits == StopBits::One ==> dcb_for(s).stop_bits == ONE_STOP_BIT,
        s.stop_bits == StopBits::OnePointFive ==> dcb_for(s).stop_bits == ONE5_STOP_BITS,
        s.stop_bits == StopBits::Two ==> dcb_for(s).stop_bits == TWO_STOP_BITS,
{
}

/// The translation reads the settings alone, never the device state:
/// on a device that already carries the configuration the settings
/// translate to, reapplying the same settings commits that identical
/// configuration, leaving the device unchanged.
pub proof fn lemma_windows_reconfigure_idempotent(
    s: SerialPortSettings,
    current_dcb: DcbConfig,
    current_timeouts: CommTimeouts,
)
    requires
        current_dcb == dcb_for(s),
        current_timeouts == timeouts_for(s),
    ensures
        dcb_for(s) == current_dcb,
        timeouts_for(s) == current_timeouts,
{
}

/// At most one flow-control discipline is active in a committed device
/// control block: RTS handshaking, DTR handshaking and software flow
/// control are mutually exclusive, and choosing one disables the
/// others.
pub proof fn lemma_dcb_flow_control_exclusive(s: SerialPortSettings)
    ensures
        dcb_for(s).rts_control == RTS_CONTROL_HANDSHAKE <==> s.flow_control == FlowControl::RtsCts,
        dcb_for(s).dtr_control == DTR_CONTROL_HANDSHAKE <==> s.flow_control == FlowControl::DsrDtr,
        dcb_for(s).out_x <==> s.flow_control == FlowControl::XonXoff,
        !(dcb_for(s).rts_control == RTS_CONTROL_HANDSHAKE && dcb_for(s).dtr_control
            == DTR_CONTROL_HANDSHAKE),
        !(dcb_for(s).rts_control == RTS_CONTROL_HANDSHAKE && dcb_for(s).out_x),
        !(dcb_for(s).dtr_control == DTR_CONTROL_HANDSHAKE && dcb_for(s).out_x),
{
}

/// How much a read should ask the device for.
#[derive(Debug, Copy, Clone, PartialEq, Eq, Structural)]
pub enum WinReadRequest {
    /// The buffer is empty: return zero at once, without touching the
    /// device.
    Empty,
    /// Nothing is buffered and the request must not wait: report the
    /// native error instead of issuing a read.
    NoBuffered,
    /// Issue a read for exactly this many bytes.
    Transfer {
        /// How many bytes to request
        count: usize,
    },
}

/// The read request these settings, this input-queue depth and this
/// buffer length call for: without a read timeout (or without blocking)
/// only what is already queued is requested, never beyond — a request
/// past the queue would wait indefinitely on an empty line; with a
/// timeout the full buffer is requested and the timeout bounds the wait.
pub open spec fn read_request_of(s: SerialPortSettings, in_queue: u32, buf_len: usize) -> WinReadRequest {
    if buf_len == 0 {
        WinReadRequest::Empty
    } else {
        let limited = s.read_timeout is None || !s.blocking;
        let count: usize = if limited {
            if in_queue as int <= buf_len as int {
                in_queue as usize
            } else {
                buf_len
            }
        } else {
            buf_len
        };
        if count == 0 {
            WinReadRequest::NoBuffered
        } else {
            WinReadRequest::Transfer { count }
        }
    }
}

/// Decides how much a read asks the device for.
pub fn windows_read_request(settings: &SerialPortSettings, in_queue: u32, buf_len: usize) -> (r:
    WinReadRequest)
    ensures
        r == read_request_of(*settings, in_queue, buf_len),
{
    if buf_len == 0 {
        return WinReadRequest::Empty;
    }
    let limited = settings.read_timeout.is_none() || !settings.blocking;
    let count: usize = if limited {
        let queued = in_queue as usize;
        if queued <= buf_len {
            queued
        } else {
            buf_len
        }
    } else {
        buf_len
    };
    if count == 0 {
        WinReadRequest::NoBuffered
    } else {
        WinReadRequest::Transfer { count }
    }
}

/// How a write should be issued against the device.
#[derive(Debug, Copy, Clone, PartialEq, Eq, Structural)]
pub enum WinWriteRequest {
    /// The buffer is empty: return zero at once, without touching the
    /// device.
    Empty,
    /// Issue a write for exactly this many bytes.
    Transfer {
        /// How many bytes to hand the device
        count: usize,
        /// Whether the completion is awaited, with the configured write
        /// timeout bounding the wait; without a timeout the native call
        /// is left to complete on its own
        awaited: bool,
    },
}

/// The write request these settings and this buffer length call for:
/// an empty buffer never reaches the device, and a configured write
/// timeout makes the completion awaited.
pub open spec fn write_request_of(s: SerialPortSettings, buf_len: usize) -> WinWriteRequest {
    if buf_len == 0 {
        WinWriteRequest::Empty
    } else {
        WinWriteRequest::Transfer { count: buf_len, awaited: s.write_timeout is Some }
    }
}

/// Decides how a write is issued against the device.
pub fn windows_write_request(settings: &SerialPortSettings, buf_len: usize) -> (r: WinWriteRequest)
    ensures
        r == write_request_of(*settings, buf_len),
{
    if buf_len == 0 {
        WinWriteRequest::Empty
    } else {
        WinWriteRequest::Transfer { count: buf_len, awaited: settings.write_timeout.is_some() }
    }
}

/// Is this native code one an overlapped start may leave behind without
/// the operation having failed?
pub fn pending_ok(code: u32) -> (r: bool)
    ensures
        r <==> (code == ERROR_SUCCESS || code == ERROR_IO_PENDING),
{
    code == ERROR_SUCCESS || code == ERROR_IO_PENDING
}

/// Did issuing the overlapped operation itself fail? True when the
/// native call reported failure with a code that does not mean the
/// operation is merely pending.
pub fn overlapped_start_failed(success: bool, last_error: u32) -> (r: bool)
    ensures
        r <==> (!success && !(last_error == ERROR_SUCCESS || last_error == ERROR_IO_PENDING)),
{
    !success && !(last_error == ERROR_SUCCESS || last_error == ERROR_IO_PENDING)
}

/// How a failed write is reported to the caller.
#[derive(Debug, Copy, Clone, PartialEq, Eq, Structural)]
pub enum WinFailureKind {
    /// The caller's buffer was unusable
    InvalidData,
    /// The system was out of memory
    OutOfMemory,
    /// Anything else: the operation was interrupted
    Interrupted,
}

/// The outcome of a write against the device.
#[derive(Debug, Copy, Clone, PartialEq, Eq, Structural)]
pub enum WinWriteOutcome {
    /// This many bytes were accepted
    Accepted {
        /// The byte count the device reported
        count: u32,
    },
    /// The write failed
    Rejected {
        /// How the failure is reported
        kind: WinFailureKind,
    },
}

/// The failure kind a native error code maps to.
pub open spec fn failure_kind_of(code: u32) -> WinFailureKind {
    if code == ERROR_INVALID_USER_BUFFER {
        WinFailureKind::InvalidData
    } else if code == ERROR_NOT_ENOUGH_MEMORY {
        WinFailureKind::OutOfMemory
    } else {
        WinFailureKind::Interrupted
    }
}

/// The outcome of an untimed write, from what the native call reported:
/// success or a pending completion hand back the written count; any
/// other code is a failure of the kind it maps to.
pub open spec fn unbounded_write_outcome_of(success: bool, last_error: u32, written: u32) -> WinWriteOutcome {
    let code: u32 = if success {
        ERROR_SUCCESS
    } else {
        last_error
    };
    if code == ERROR_SUCCESS || code == ERROR_IO_PENDING {
        WinWriteOutcome::Accepted { count: written }
    } else {
        WinWriteOutcome::Rejected { kind: failure_kind_of(code) }
    }
}

/// Classifies an untimed write's native report.
pub fn windows_unbounded_write_outcome(success: bool, last_error: u32, written: u32) -> (r:
    WinWriteOutcome)
    ensures
        r == unbounded_write_outcome_of(success, last_error, written),
{
    let code: u32 = if success {
        ERROR_SUCCESS
    } else {
        last_error
    };
    if code == ERROR_SUCCESS || code == ERROR_IO_PENDING {
        WinWriteOutcome::Accepted { count: written }
    } else if code == ERROR_INVALID_USER_BUFFER {
        WinWriteOutcome::Rejected { kind: WinFailureKind::InvalidData }
    } else if code == ERROR_NOT_ENOUGH_MEMORY {
        WinWriteOutcome::Rejected { kind: WinFailureKind::OutOfMemory }
    } else {
        WinWriteOutcome::Rejected { kind: WinFailureKind::Interrupted }
    }
}

/// The outcome of a timed write once its completion was awaited: a
/// failed wait is an error unless the operation was aborted by a racing
/// close or purge, which yields whatever partial count had completed,
/// not an error; a successful wait hands back the count the device
/// reported.
pub open spec fn bounded_write_outcome_of(wait_ok: bool, last_error: u32, written: u32) -> WinWriteOutcome {
    if !wait_ok && last_error != ERROR_OPERATION_ABORTED {
        WinWriteOutcome::Rejected { kind: WinFailureKind::Interrupted }
    } else {
        WinWriteOutcome::Accepted { count: written }
    }
}

/// Classifies a timed write's completion.
pub fn windows_bounded_write_outcome(wait_ok: bool, last_error: u32, written: u32) -> (r:
    WinWriteOutcome)
    ensures
        r == bounded_write_outcome_of(wait_ok, last_error, written),
{
    if !wait_ok && last_error != ERROR_OPERATION_ABORTED {
        WinWriteOutcome::Rejected { kind: WinFailureKind::Interrupted }
    } else {
        WinWriteOutcome::Accepted { count: written }
    }
}

/// Did the issued read complete synchronously with the full requested
/// count, so that no completion wait is needed?
pub fn windows_read_immediate(read_count: u32, requested: u32) -> (r: bool)
    ensures
        r == (read_count == requested),
{
    read_count == requested
}

/// The outcome of a read once its completion was awaited.
#[derive(Debug, Copy, Clone, PartialEq, Eq, Structural)]
pub enum WinReadOutcome {
    /// This many bytes arrived; an aborted operation completes with its
    /// partial count rather than an error
    Completed {
        /// The byte count the device reported
        count: u32,
    },
    /// The bounded wait elapsed with no data: report a timeout, never a
    /// zero-byte success
    TimedOut,
    /// The read failed
    Failed,
}

/// Is a read under these settings bounded by a positive timeout, so
/// that a completion with no data means the wait elapsed?
pub open spec fn timed_read(s: SerialPortSettings) -> bool {
    s.read_timeout matches Some(t) && t > 0
}

/// The outcome of an awaited read: a failed wait is an error unless the
/// operation was aborted, which yields whatever partial count had
/// completed; an empty completion under a positive read timeout is the
/// timeout expiring, reported as such and never as data.
pub open spec fn read_completion_of(
    s: SerialPortSettings,
    wait_ok: bool,
    last_error: u32,
    count: u32,
) -> WinReadOutcome {
    if !wait_ok && last_error != ERROR_OPERATION_ABORTED {
        WinReadOutcome::Failed
    } else if !wait_ok {
        WinReadOutcome::Completed { count }
    } else if timed_read(s) && count == 0 {
        WinReadOutcome::TimedOut
    } else {
        WinReadOutcome::Completed { count }
    }
}

/// Classifies an awaited read's completion.
pub fn windows_read_completion(
    settings: &SerialPortSettings,
    wait_ok: bool,
    last_error: u32,
    count: u32,
) -> (r: WinReadOutcome)
    ensures
        r == read_completion_of(*settings, wait_ok, last_error, count),
{
    if !wait_ok && last_error != ERROR_OPERATION_ABORTED {
        return WinReadOutcome::Failed;
    }
    if !wait_ok {
        return WinReadOutcome::Completed { count };
    }
    let timed = match settings.read_timeout {
        Some(t) => t > 0,
        None => false,
    };
    if timed && count == 0 {
        WinReadOutcome::TimedOut
    } else {
        WinReadOutcome::Completed { count }
    }
}

/// Under a positive read timeout, an awaited read whose wait succeeds
/// with no data is reported as timed out, whatever the native error
/// code holds — the expired bound never surfaces as a zero-byte
/// success.
pub proof fn lemma_windows_read_timeout_reported(s: SerialPortSettings, t: u128, last_error: u32)
    requires
        s.read_timeout == Some(t),
        t > 0,
    ensures
        read_completion_of(s, true, last_error, 0) == WinReadOutcome::TimedOut,
{
}

/// The bit the native modem-status word uses for each line.
pub open spec fn windows_modem_mask(line: crate::port::ModemLine) -> u32 {
    match line {
        crate::port::ModemLine::ClearToSend => 0x10u32,
        crate::port::ModemLine::DataSetReady => 0x20u32,
        crate::port::ModemLine::RingIndicator => 0x40u32,
        crate::port::ModemLine::CarrierDetect => 0x80u32,
    }
}

/// Is the given line-status signal asserted in the native modem-status
/// word?
pub fn windows_modem_line_active(status: u32, line: crate::port::ModemLine) -> (r: bool)
    ensures
        r == ((status & windows_modem_mask(line)) != 0),
{
    let mask: u32 = match line {
        crate::port::ModemLine::ClearToSend => 0x10,
        crate::port::ModemLine::DataSetReady => 0x20,
        crate::port::ModemLine::RingIndicator => 0x40,
        crate::port::ModemLine::CarrierDetect => 0x80,
    };
    (status & mask) != 0
}

/// The UTF-16 code units of one character: a single unit below
/// 0x10000, a surrogate pair above.
pub open spec fn utf16_units_of(c: char) -> Seq<u16> {
    let v = c as u32;
    if v < 0x10000 {
        seq![v as u16]
    } else {
        seq![
            (0xD800 + (v - 0x10000) / 0x400) as u16,
            (0xDC00 + (v - 0x10000) % 0x400) as u16,
        ]
    }
}

/// The UTF-16 code units of a string, in order.
pub open spec fn utf16_units(s: Seq<char>) -> Seq<u16>
    decreases s.len(),
{
    if s.len() == 0 {
        Seq::<u16>::empty()
    } else {
        utf16_units_of(s.first()) + utf16_units(s.drop_first())
    }
}

/// Relies on str::encode_utf16: each character below 0x10000 becomes
/// its own code unit, any other a surrogate pair, in the characters'
/// order.
#[verifier::external_body]
fn encode_utf16_units(s: &str) -> (r: Vec<u16>)
    ensures
        r@ == utf16_units(s@),
{
    s.encode_utf16().collect()
}

/// The native name the device is opened under: the device namespace
/// prefix `\\.\`, the port path in UTF-16, and a terminating zero unit.
pub fn windows_device_name(path: &str) -> (r: Vec<u16>)
    ensures
        r@ == seq![92u16, 92u16, 46u16, 92u16] + utf16_units(path@) + seq![0u16],
{
    let mut name: Vec<u16> = Vec::new();
    name.push(92);
    name.push(92);
    name.push(46);
    name.push(92);
    let mut units = encode_utf16_units(path);
    name.append(&mut units);
    name.push(0);
    proof {
        assert(name@ =~= seq![92u16, 92u16, 46u16, 92u16] + utf16_units(path@) + seq![0u16]);
    }
    name
}

/// The vendor ID and, when present, the product ID a USB hardware-ID
/// string carries.
#[derive(Debug, Copy, Clone, PartialEq, Eq, Structural)]
pub struct UsbIds {
    /// The four hexadecimal digits after `VID_`
    pub vid: u16,
    /// The four hexadecimal digits after `&PID_`, when that group
    /// directly follows the vendor group
    pub pid: Option<u16>,
}

/// Does `VID_` (in either case) followed by four hexadecimal digits
/// stand at position `i`?
pub open spec fn vid_group_at(s: Seq<u8>, i: int) -> bool {
    &&& 0 <= i
    &&& i + 8 <= s.len()
    &&& (s[i] == 86 || s[i] == 118)  // 'V' 'v'
    &&& (s[i + 1] == 73 || s[i + 1] == 105)  // 'I' 'i'
    &&& (s[i + 2] == 68 || s[i + 2] == 100)  // 'D' 'd'
    &&& s[i + 3] == 95  // '_'
    &&& crate::parse::is_hex_digit(s[i + 4])
    &&& crate::parse::is_hex_digit(s[i + 5])
    &&& crate::parse::is_hex_digit(s[i + 6])
    &&& crate::parse::is_hex_digit(s[i + 7])
}

/// Does `&PID_` (in either case) followed by four hexadecimal digits
/// stand at position `i`?
pub open spec fn pid_group_at(s: Seq<u8>, i: int) -> bool {
    &&& 0 <= i
    &&& i + 9 <= s.len()
    &&& s[i] == 38  // '&'
    &&& (s[i + 1] == 80 || s[i + 1] == 112)  // 'P' 'p'
    &&& (s[i + 2] == 73 || s[i + 2] == 105)  // 'I' 'i'
    &&& (s[i + 3] == 68 || s[i + 3] == 100)  // 'D' 'd'
    &&& s[i + 4] == 95  // '_'
    &&& crate::parse::is_hex_digit(s[i + 5])
    &&& crate::parse::is_hex_digit(s[i + 6])
    &&& crate::parse::is_hex_digit(s[i + 7])
    &&& crate::parse::is_hex_digit(s[i + 8])
}

/// The value of the four hexadecimal digits at position `i`.
pub open spec fn hex4_at(s: Seq<u8>, i: int) -> nat {
    crate::parse::hex_digit_value(s[i]) * 4096 + crate::parse::hex_digit_value(s[i + 1]) * 256
        + crate::parse::hex_digit_value(s[i + 2]) * 16 + crate::parse::hex_digit_value(s[i + 3])
}

/// Is `b` an ASCII hexadecimal digit?
fn hex_digit(b: u8) -> (r: bool)
    ensures
        r == crate::parse::is_hex_digit(b),
{
    (48 <= b && b <= 57) || (97 <= b && b <= 102) || (65 <= b && b <= 70)
}

/// The numeric value of a hexadecimal digit byte.
fn hex_digit_val(b: u8) -> (r: u8)
    requires
        crate::parse::is_hex_digit(b),
    ensures
        r == crate::parse::hex_digit_value(b),
{
    if 48 <= b && b <= 57 {
        b - 48
    } else if 97 <= b && b <= 102 {
        b - 87
    } else {
        b - 55
    }
}

/// The value of the four hexadecimal digits at position `i`.
fn hex4(s: &[u8], i: usize) -> (r: u16)
    requires
        i + 4 <= s@.len(),
        crate::parse::is_hex_digit(s@[i as int]),
        crate::parse::is_hex_digit(s@[i + 1]),
        crate::parse::is_hex_digit(s@[i + 2]),
        crate::parse::is_hex_digit(s@[i + 3]),
    ensures
        r == hex4_at(s@, i as int),
{
    let d0: u16 = hex_digit_val(s[i]) as u16;
    let d1: u16 = hex_digit_val(s[i + 1]) as u16;
    let d2: u16 = hex_digit_val(s[i + 2]) as u16;
    let d3: u16 = hex_digit_val(s[i + 3]) as u16;
    d0 * 4096 + d1 * 256 + d2 * 16 + d3
}

/// Does the vendor group stand at position `i`?
fn check_vid_at(s: &[u8], i: usize) -> (r: bool)
    requires
        i + 8 <= s@.len(),
    ensures
        r == vid_group_at(s@, i as int),
{
    (s[i] == 86 || s[i] == 118) && (s[i + 1] == 73 || s[i + 1] == 105) && (s[i + 2] == 68 || s[i
        + 2] == 100) && s[i + 3] == 95 && hex_digit(s[i + 4]) && hex_digit(s[i + 5]) && hex_digit(
        s[i + 6],
    ) && hex_digit(s[i + 7])
}

/// Does the product group stand at position `i`?
fn check_pid_at(s: &[u8], i: usize) -> (r: bool)
    ensures
        r == pid_group_at(s@, i as int),
{
    i <= s.len() && s.len() - i >= 9 && s[i] == 38 && (s[i + 1] == 80 || s[i + 1] == 112) && (s[i
        + 2] == 73 || s[i + 2] == 105) && (s[i + 3] == 68 || s[i + 3] == 100) && s[i + 4] == 95
        && hex_digit(s[i + 5]) && hex_digit(s[i + 6]) && hex_digit(s[i + 7]) && hex_digit(s[i + 8])
}

/// Reads the vendor and product IDs out of a USB hardware-ID string,
/// as the leftmost `VID_hhhh` group (either case), with the product ID
/// taken from an `&PID_hhhh` group directly behind it.
pub fn parse_usb_ids(hw: &[u8]) -> (r: Option<UsbIds>)
    ensures
        r is Some <==> exists|i: int| vid_group_at(hw@, i),
        r matches Some(u) ==> exists|i: int|
            {
                &&& #[trigger] vid_group_at(hw@, i)
                &&& forall|j: int| 0 <= j < i ==> !vid_group_at(hw@, j)
                &&& u.vid == hex4_at(hw@, i + 4)
                &&& if pid_group_at(hw@, i + 8) {
                    u.pid matches Some(p) && p == hex4_at(hw@, i + 13)
                } else {
                    u.pid is None
                }
            },
{
    if hw.len() < 8 {
        assert(forall|i: int| !vid_group_at(hw@, i));
        return None;
    }
    let mut i: usize = 0;
    while i <= hw.len() - 8
        invariant
            i <= hw@.len(),
            hw@.len() >= 8,
            forall|j: int| 0 <= j < i ==> !vid_group_at(hw@, j),
        decreases hw@.len() - i,
    {
        if check_vid_at(hw, i) {
            let vid: u16 = hex4(hw, i + 4);
            let pid: Option<u16> = if check_pid_at(hw, i + 8) {
                Some(hex4(hw, i + 13))
            } else {
                None
            };
            return Some(UsbIds { vid, pid });
        }
        i = i + 1;
    }
    assert(forall|j: int| j >= i ==> !vid_group_at(hw@, j));
    None
}

/// Is this a parallel-port name (`LPT` prefix), which the enumerator
/// discards?
pub open spec fn is_lpt_name(s: Seq<u8>) -> bool {
    s.len() >= 3 && s[0] == 76 && s[1] == 80 && s[2] == 84
}

/// Does the hardware-ID string report a USB device (`USB` prefix)?
pub open spec fn is_usb_hwid(s: Seq<u8>) -> bool {
    s.len() >= 3 && s[0] == 85 && s[1] == 83 && s[2] == 66
}

/// Does the hardware-ID string report an FTDI bus device (`FTDIBUS`
/// prefix), whose ID string is not recorded?
pub open spec fn is_ftdibus_hwid(s: Seq<u8>) -> bool {
    &&& s.len() >= 7
    &&& s[0] == 70  // 'F'
    &&& s[1] == 84  // 'T'
    &&& s[2] == 68  // 'D'
    &&& s[3] == 73  // 'I'
    &&& s[4] == 66  // 'B'
    &&& s[5] == 85  // 'U'
    &&& s[6] == 83  // 'S'
}

/// The identifiers recorded for a USB hardware-ID string: those of its
/// leftmost vendor group, the product ID defaulting to zero when its
/// group is absent, and both zero when no vendor group exists.
pub open spec fn usb_ids_recorded(hw: Seq<u8>, vid: u16, pid: u16) -> bool {
    if exists|i: int| vid_group_at(hw, i) {
        exists|i: int|
            {
                &&& #[trigger] vid_group_at(hw, i)
                &&& forall|j: int| 0 <= j < i ==> !vid_group_at(hw, j)
                &&& vid == hex4_at(hw, i + 4)
                &&& pid == if pid_group_at(hw, i + 8) {
                    hex4_at(hw, i + 13)
                } else {
                    0nat
                }
            }
    } else {
        vid == 0 && pid == 0
    }
}

/// What the enumerator records for one device.
#[derive(Debug, Clone, PartialEq, Eq)]
pub struct WindowsPortRecord {
    /// The port name, as the registry reported it
    pub port: Vec<u8>,
    /// The hardware-ID string, kept only for devices that are neither
    /// USB nor FTDI bus
    pub hwid: Vec<u8>,
    /// The USB vendor ID, zero when unknown
    pub vid: u16,
    /// The USB product ID, zero when unknown
    pub pid: u16,
    /// The friendly name, empty when unavailable
    pub description: Vec<u8>,
    /// The manufacturer, empty when unavailable
    pub manufacturer: Vec<u8>,
}

/// Assembles the record for one enumerated device: parallel ports are
/// discarded; a USB hardware ID yields the parsed vendor and product
/// IDs; an FTDI bus ID yields nothing; any other ID string is recorded
/// verbatim.
pub fn windows_port_record(
    port_name: &[u8],
    hw_id: &[u8],
    description: &[u8],
    manufacturer: &[u8],
) -> (r: Option<WindowsPortRecord>)
    ensures
        r is None <==> is_lpt_name(port_name@),
        r matches Some(rec) ==> rec.port@ == port_name@ && rec.description@ == description@
            && rec.manufacturer@ == manufacturer@,
        (!is_lpt_name(port_name@) && is_usb_hwid(hw_id@)) ==> (r matches Some(rec)
            && rec.hwid@.len() == 0 && usb_ids_recorded(hw_id@, rec.vid, rec.pid)),
        (!is_lpt_name(port_name@) && !is_usb_hwid(hw_id@) && is_ftdibus_hwid(hw_id@)) ==> (
        r matches Some(rec) && rec.hwid@.len() == 0 && rec.vid == 0 && rec.pid == 0),
        (!is_lpt_name(port_name@) && !is_usb_hwid(hw_id@) && !is_ftdibus_hwid(hw_id@)) ==> (
        r matches Some(rec) && rec.hwid@ == hw_id@ && rec.vid == 0 && rec.pid == 0),
{
    if port_name.len() >= 3 && port_name[0] == 76 && port_name[1] == 80 && port_name[2] == 84 {
        return None;
    }
    let mut rec = WindowsPortRecord {
        port: vstd::slice::slice_to_vec(port_name),
        hwid: Vec::new(),
        vid: 0,
        pid: 0,
        description: vstd::slice::slice_to_vec(description),
        manufacturer: vstd::slice::slice_to_vec(manufacturer),
    };
    if hw_id.len() >= 3 && hw_id[0] == 85 && hw_id[1] == 83 && hw_id[2] == 66 {
        match parse_usb_ids(hw_id) {
            Some(ids) => {
                rec.vid = ids.vid;
                match ids.pid {
                    Some(p) => {
                        rec.pid = p;
                    },
                    None => {},
                }
            },
            None => {},
        }
    } else if hw_id.len() >= 7 && hw_id[0] == 70 && hw_id[1] == 84 && hw_id[2] == 68 && hw_id[3]
        == 73 && hw_id[4] == 66 && hw_id[5] == 85 && hw_id[6] == 83 {
        // FTDI bus devices record neither an ID string nor USB IDs.
    } else {
        rec.hwid = vstd::slice::slice_to_vec(hw_id);
    }
    Some(rec)
}

} // verus!
