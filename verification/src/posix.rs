//! The POSIX backend's verified logic.
//!
//! The reconfiguration algorithm is a pure function from the declarative
//! settings and the device's current terminal attributes to the terminal
//! attributes to commit: raw mode is forced, the baud rate is mapped
//! through the fixed table of rates the platform recognises, and the
//! inter-byte timeout becomes VMIN/VTIME. The platform glue reads the
//! attributes, calls [`apply_settings`], and writes the result back;
//! nothing here touches a device.

use vstd::prelude::*;

use crate::error::SerialError;
use crate::settings::ByteSize;
use crate::settings::FlowControl;
use crate::settings::Parity;
use crate::settings::SerialPortSettings;
use crate::settings::StopBits;

verus! {

/// Every terminal attribute the reconfiguration algorithm reads or
/// writes, as named fields. Flags the algorithm never touches stay in
/// the native structure and are preserved by the glue that writes this
/// configuration back.
#[derive(Debug, Copy, Clone, PartialEq, Eq, Structural)]
pub struct TermiosConfig {
    /// CLOCAL: ignore modem control lines
    pub local_mode: bool,
    /// CREAD: enable the receiver
    pub receiver_enabled: bool,
    /// CSIZE: data bits per character
    pub byte_size: ByteSize,
    /// CSTOPB: two stop bits instead of one
    pub two_stop_bits: bool,
    /// PARENB: parity generation and checking enabled
    pub parity_enabled: bool,
    /// PARODD: odd parity instead of even
    pub parity_odd: bool,
    /// CMSPAR: mark/space parity
    pub parity_mark_space: bool,
    /// CRTSCTS: hardware RTS/CTS flow control
    pub hardware_flow_control: bool,
    /// ICANON: canonical (line-buffered) input
    pub canonical: bool,
    /// ECHO: echo input characters
    pub echo: bool,
    /// ECHOE: echo erase characters as backspace
    pub echo_erase: bool,
    /// ECHOK: echo the kill character
    pub echo_kill: bool,
    /// ECHONL: echo newline even with echo off
    pub echo_newline: bool,
    /// ISIG: generate signals for INTR/QUIT/SUSP
    pub signals: bool,
    /// IEXTEN: extended input processing
    pub extended_input: bool,
    /// ECHOCTL: echo control characters as ^X
    pub echo_control: bool,
    /// ECHOKE: visual kill-line erase
    pub echo_kill_erase: bool,
    /// OPOST: output post-processing
    pub output_processing: bool,
    /// ONLCR: map NL to CR-NL on output
    pub map_nl_to_crnl: bool,
    /// OCRNL: map CR to NL on output
    pub map_cr_to_nl_out: bool,
    /// INLCR: map NL to CR on input
    pub map_nl_to_cr_in: bool,
    /// IGNCR: ignore CR on input
    pub ignore_cr: bool,
    /// ICRNL: map CR to NL on input
    pub map_cr_to_nl_in: bool,
    /// IGNBRK: ignore break conditions
    pub ignore_break: bool,
    /// PARMRK: mark parity errors in the input stream
    pub mark_parity_errors: bool,
    /// INPCK: input parity checking
    pub input_parity_check: bool,
    /// ISTRIP: strip the eighth bit
    pub strip_eighth_bit: bool,
    /// IXON: software flow control on output
    pub software_flow_out: bool,
    /// IXOFF: software flow control on input
    pub software_flow_in: bool,
    /// IXANY: any character restarts output
    pub any_char_restarts: bool,
    /// VMIN: minimum byte count for a read to return
    pub vmin: u8,
    /// VTIME: inter-byte timeout in tenths of a second
    pub vtime: u8,
    /// Input speed, as the platform's speed constant
    pub input_speed: u32,
    /// Output speed, as the platform's speed constant
    pub output_speed: u32,
}

/// The fixed table of baud rates the platform recognises, as the
/// platform's speed constants. A rate absent from this table is never
/// rounded; requesting it is an error.
pub open spec fn posix_speed_of(rate: u32) -> Option<u32> {
    if rate == 50 {
        Some(1u32)
    } else if rate == 75 {
        Some(2u32)
    } else if rate == 110 {
        Some(3u32)
    } else if rate == 134 {
        Some(4u32)
    } else if rate == 150 {
        Some(5u32)
    } else if rate == 200 {
        Some(6u32)
    } else if rate == 300 {
        Some(7u32)
    } else if rate == 600 {
        Some(8u32)
    } else if rate == 1200 {
        Some(9u32)
    } else if rate == 1800 {
        Some(10u32)
    } else if rate == 2400 {
        Some(11u32)
    } else if rate == 4800 {
        Some(12u32)
    } else if rate == 9600 {
        Some(13u32)
    } else if rate == 19200 {
        Some(14u32)
    } else if rate == 38400 {
        Some(15u32)
    } else if rate == 57600 {
        Some(4097u32)
    } else if rate == 115200 {
        Some(4098u32)
    } else if rate == 230400 {
        Some(4099u32)
    } else if rate == 460800 {
        Some(4100u32)
    } else if rate == 500000 {
        Some(4101u32)
    } else if rate == 576000 {
        Some(4102u32)
    } else if rate == 921600 {
        Some(4103u32)
    } else if rate == 1000000 {
        Some(4104u32)
    } else if rate == 1152000 {
        Some(4105u32)
    } else if rate == 1500000 {
        Some(4106u32)
    } else if rate == 2000000 {
        Some(4107u32)
    } else if rate == 2500000 {
        Some(4108u32)
    } else if rate == 3000000 {
        Some(4109u32)
    } else if rate == 3500000 {
        Some(4110u32)
    } else if rate == 4000000 {
        Some(4111u32)
    } else {
        None
    }
}

/// Is the rate in the platform's baud table?
pub open spec fn posix_baud_in_table(rate: u32) -> bool {
    posix_speed_of(rate) is Some
}

/// The rate a platform speed constant denotes: the inverse of the baud
/// table, used when reading a configuration back.
pub open spec fn posix_rate_of_speed(speed: u32) -> Option<u32> {
    if speed == 1 {
        Some(50u32)
    } else if speed == 2 {
        Some(75u32)
    } else if speed == 3 {
        Some(110u32)
    } else if speed == 4 {
        Some(134u32)
    } else if speed == 5 {
        Some(150u32)
    } else if speed == 6 {
        Some(200u32)
    } else if speed == 7 {
        Some(300u32)
    } else if speed == 8 {
        Some(600u32)
    } else if speed == 9 {
        Some(1200u32)
    } else if speed == 10 {
        Some(1800u32)
    } else if speed == 11 {
        Some(2400u32)
    } else if speed == 12 {
        Some(4800u32)
    } else if speed == 13 {
        Some(9600u32)
    } else if speed == 14 {
        Some(19200u32)
    } else if speed == 15 {
        Some(38400u32)
    } else if speed == 4097 {
        Some(57600u32)
    } else if speed == 4098 {
        Some(115200u32)
    } else if speed == 4099 {
        Some(230400u32)
    } else if speed == 4100 {
        Some(460800u32)
    } else if speed == 4101 {
        Some(500000u32)
    } else if speed == 4102 {
        Some(576000u32)
    } else if speed == 4103 {
        Some(921600u32)
    } else if speed == 4104 {
        Some(1000000u32)
    } else if speed == 4105 {
        Some(1152000u32)
    } else if speed == 4106 {
        Some(1500000u32)
    } else if speed == 4107 {
        Some(2000000u32)
    } else if speed == 4108 {
        Some(2500000u32)
    } else if speed == 4109 {
        Some(3000000u32)
    } else if speed == 4110 {
        Some(3500000u32)
    } else if speed == 4111 {
        Some(4000000u32)
    } else {
        None
    }
}

/// Looks the requested rate up in the platform's baud table.
pub fn posix_speed_for_baud(rate: u32) -> (r: Option<u32>)
    ensures
        r == posix_speed_of(rate),
{
    match rate {
        50 => Some(1),
        75 => Some(2),
        110 => Some(3),
        134 => Some(4),
        150 => Some(5),
        200 => Some(6),
        300 => Some(7),
        600 => Some(8),
        1200 => Some(9),
        1800 => Some(10),
        2400 => Some(11),
        4800 => Some(12),
        9600 => Some(13),
        19200 => Some(14),
        38400 => Some(15),
        57600 => Some(4097),
        115200 => Some(4098),
        230400 => Some(4099),
        460800 => Some(4100),
        500000 => Some(4101),
        576000 => Some(4102),
        921600 => Some(4103),
        1000000 => Some(4104),
        1152000 => Some(4105),
        1500000 => Some(4106),
        2000000 => Some(4107),
        2500000 => Some(4108),
        3000000 => Some(4109),
        3500000 => Some(4110),
        4000000 => Some(4111),
        _ => None,
    }
}

/// The VMIN value the settings ask for: wait for a first byte exactly
/// when an inter-byte timeout is configured.
pub open spec fn posix_vmin_of(s: SerialPortSettings) -> u8 {
    if s.inter_byte_timeout is Some {
        1u8
    } else {
        0u8
    }
}

/// Does the inter-byte timeout fit the byte-sized VTIME field, which
/// counts tenths of a second?
pub open spec fn posix_vtime_ok(s: SerialPortSettings) -> bool {
    s.inter_byte_timeout matches Some(t) ==> t * 10 <= 255
}

/// The VTIME value the settings ask for, in tenths of a second.
pub open spec fn posix_vtime_of(s: SerialPortSettings) -> u8 {
    match s.inter_byte_timeout {
        Some(t) => (t * 10) as u8,
        None => 0u8,
    }
}

/// Can this platform apply the settings at all?
pub open spec fn posix_settings_ok(s: SerialPortSettings) -> bool {
    &&& posix_baud_in_table(s.baud_rate)
    &&& s.stop_bits != StopBits::OnePointFive
    &&& posix_vtime_ok(s)
}

/// The message reported for a baud rate absent from the platform
/// table: it names the offending rate.
pub open spec fn baud_unsupported_msg(rate: u32) -> Seq<char> {
    "unsupported baud rate "@ + crate::parse::decimal_chars(rate as nat)
}

/// The message reported for a stop-bit count the platform cannot encode.
pub open spec fn stop_bits_unsupported_msg() -> Seq<char> {
    "1.5 stop bits are unsupported on this platform"@
}

/// The message reported for an inter-byte timeout beyond the VTIME range.
pub open spec fn vtime_unsupported_msg() -> Seq<char> {
    "inter-byte timeout exceeds the VTIME range"@
}

/// The terminal attributes that committing `s` over the current
/// attributes `c` produces, provided `posix_settings_ok(s)`.
///
/// Raw mode is forced: canonical input, echo, signals, output
/// post-processing and CR/NL translation are all cleared, whatever the
/// device held before. The one attribute that survives is IXANY, which
/// the algorithm leaves alone under XON/XOFF flow control.
pub open spec fn posix_config_after(s: SerialPortSettings, c: TermiosConfig) -> TermiosConfig {
    TermiosConfig {
        local_mode: true,
        receiver_enabled: true,
        byte_size: s.byte_size,
        two_stop_bits: s.stop_bits == StopBits::Two,
        parity_enabled: s.parity != Parity::Disabled,
        parity_odd: s.parity == Parity::Odd,
        parity_mark_space: false,
        hardware_flow_control: s.flow_control == FlowControl::RtsCts,
        canonical: false,
        echo: false,
        echo_erase: false,
        echo_kill: false,
        echo_newline: false,
        signals: false,
        extended_input: false,
        echo_control: false,
        echo_kill_erase: false,
        output_processing: false,
        map_nl_to_crnl: false,
        map_cr_to_nl_out: false,
        map_nl_to_cr_in: false,
        ignore_cr: false,
        map_cr_to_nl_in: false,
        ignore_break: false,
        mark_parity_errors: false,
        input_parity_check: false,
        strip_eighth_bit: false,
        software_flow_out: s.flow_control == FlowControl::XonXoff,
        software_flow_in: s.flow_control == FlowControl::XonXoff,
        any_char_restarts: if s.flow_control == FlowControl::XonXoff {
            c.any_char_restarts
        } else {
            false
        },
        vmin: posix_vmin_of(s),
        vtime: posix_vtime_of(s),
        input_speed: match posix_speed_of(s.baud_rate) {
            Some(sp) => sp,
            None => c.input_speed,
        },
        output_speed: match posix_speed_of(s.baud_rate) {
            Some(sp) => sp,
            None => c.output_speed,
        },
    }
}

/// Translates the settings into the terminal attributes to commit.
///
/// Succeeds exactly when the platform can represent the request; each
/// way it cannot is reported as the library error whose message names
/// the constraint, with the baud rate checked first, the stop bits
/// second and the inter-byte timeout last.
pub fn apply_settings(settings: &SerialPortSettings, current: &TermiosConfig) -> (r: Result<
    TermiosConfig,
    SerialError,
>)
    ensures
        r is Ok <==> posix_settings_ok(*settings),
        r matches Ok(c) ==> c == posix_config_after(*settings, *current),
        !posix_baud_in_table(settings.baud_rate) ==> (r matches Err(e) && e.is_library_error(
            baud_unsupported_msg(settings.baud_rate),
        )),
        posix_baud_in_table(settings.baud_rate) && settings.stop_bits == StopBits::OnePointFive
            ==> (r matches Err(e) && e.is_library_error(stop_bits_unsupported_msg())),
        posix_baud_in_table(settings.baud_rate) && settings.stop_bits != StopBits::OnePointFive
            && !posix_vtime_ok(*settings) ==> (r matches Err(e) && e.is_library_error(
            vtime_unsupported_msg(),
        )),
{
    let mut cfg = *current;

    // Force raw mode: the line discipline is the caller's responsibility.
    cfg.local_mode = true;
    cfg.receiver_enabled = true;
    cfg.canonical = false;
    cfg.echo = false;
    cfg.echo_erase = false;
    cfg.echo_kill = false;
    cfg.echo_newline = false;
    cfg.signals = false;
    cfg.extended_input = false;
    cfg.echo_control = false;
    cfg.echo_kill_erase = false;
    cfg.output_processing = false;
    cfg.map_nl_to_crnl = false;
    cfg.map_cr_to_nl_out = false;
    cfg.map_nl_to_cr_in = false;
    cfg.ignore_cr = false;
    cfg.map_cr_to_nl_in = false;
    cfg.ignore_break = false;
    cfg.mark_parity_errors = false;

    match posix_speed_for_baud(settings.baud_rate) {
        Some(speed) => {
            cfg.input_speed = speed;
            cfg.output_speed = speed;
        },
        None => {
            let mut msg = "unsupported baud rate ".to_owned();
            crate::parse::append_decimal(&mut msg, settings.baud_rate);
            return Err(SerialError::LibraryError(msg));
        },
    }

    cfg.byte_size = settings.byte_size;

    match settings.stop_bits {
        StopBits::One => {
            cfg.two_stop_bits = false;
        },
        StopBits::Two => {
            cfg.two_stop_bits = true;
        },
        StopBits::OnePointFive => {
            return Err(
                SerialError::LibraryError(
                    "1.5 stop bits are unsupported on this platform".to_owned(),
                ),
            );
        },
    }

    cfg.input_parity_check = false;
    cfg.strip_eighth_bit = false;
    cfg.parity_mark_space = false;

    match settings.parity {
        Parity::Disabled => {
            cfg.parity_enabled = false;
            cfg.parity_odd = false;
        },
        Parity::Even => {
            cfg.parity_odd = false;
            cfg.parity_enabled = true;
        },
        Parity::Odd => {
            cfg.parity_enabled = true;
            cfg.parity_odd = true;
        },
    }

    match settings.flow_control {
        FlowControl::Disabled | FlowControl::DsrDtr => {
            // DSR/DTR flow control has no POSIX equivalent and degrades
            // to none; this is a documented relaxation, not an error.
            cfg.software_flow_out = false;
            cfg.software_flow_in = false;
            cfg.any_char_restarts = false;
            cfg.hardware_flow_control = false;
        },
        FlowControl::XonXoff => {
            cfg.software_flow_out = true;
            cfg.software_flow_in = true;
            cfg.hardware_flow_control = false;
        },
        FlowControl::RtsCts => {
            cfg.software_flow_out = false;
            cfg.software_flow_in = false;
            cfg.any_char_restarts = false;
            cfg.hardware_flow_control = true;
        },
    }

    match settings.inter_byte_timeout {
        Some(timeout) => {
            if timeout > 25 {
                return Err(
                    SerialError::LibraryError(
                        "inter-byte timeout exceeds the VTIME range".to_owned(),
                    ),
                );
            }
            cfg.vmin = 1;
            cfg.vtime = (timeout * 10) as u8;
        },
        None => {
            cfg.vmin = 0;
            cfg.vtime = 0;
        },
    }

    Ok(cfg)
}

/// Exactly the rates of the platform table let reconfiguration succeed,
/// for settings the platform otherwise supports; the configuration then
/// carries the table's speed constant for the requested rate, and that
/// constant decodes back to the same rate.
pub proof fn lemma_baud_rate_governs_success(s: SerialPortSettings, c: TermiosConfig)
    requires
        s.stop_bits != StopBits::OnePointFive,
        posix_vtime_ok(s),
    ensures
        posix_settings_ok(s) <==> posix_baud_in_table(s.baud_rate),
        posix_baud_in_table(s.baud_rate) ==> (posix_speed_of(s.baud_rate) matches Some(sp)
            && posix_config_after(s, c).output_speed == sp && posix_config_after(s, c).input_speed
            == sp && posix_rate_of_speed(sp) == Some(s.baud_rate)),
{
}

/// Applying the same settings twice produces the configuration one
/// application produces: reconfiguration is idempotent.
pub proof fn lemma_apply_settings_idempotent(s: SerialPortSettings, c: TermiosConfig)
    ensures
        posix_config_after(s, posix_config_after(s, c)) == posix_config_after(s, c),
{
}

/// A request for 1.5 stop bits can never be applied by this backend,
/// whatever the rest of the settings say.
pub proof fn lemma_one_point_five_always_rejected(s: SerialPortSettings)
    requires
        s.stop_bits == StopBits::OnePointFive,
    ensures
        !posix_settings_ok(s),
{
}

/// At most one flow-control discipline is active in a committed
/// configuration: hardware handshaking and software flow control are
/// never enabled together, and choosing one clears the other, whatever
/// the device held before.
pub proof fn lemma_flow_control_exclusive(s: SerialPortSettings, c: TermiosConfig)
    ensures
        !(posix_config_after(s, c).hardware_flow_control && posix_config_after(
            s,
            c,
        ).software_flow_out),
        !(posix_config_after(s, c).hardware_flow_control && posix_config_after(
            s,
            c,
        ).software_flow_in),
        posix_config_after(s, c).hardware_flow_control <==> s.flow_control == FlowControl::RtsCts,
        posix_config_after(s, c).software_flow_out <==> s.flow_control == FlowControl::XonXoff,
{
}

/// How a read or write against the device must proceed.
#[derive(Debug, Copy, Clone, PartialEq, Eq, Structural)]
pub enum TransferPlan {
    /// The buffer is empty: return zero at once, without touching the
    /// device.
    Empty,
    /// No timeout is configured: attempt the transfer directly.
    Direct,
    /// Wait for readiness for at most this many milliseconds before
    /// attempting the transfer.
    WaitFirst {
        /// The configured timeout in milliseconds
        timeout_ms: u128,
    },
}

/// The plan a read with these settings and this buffer length follows.
pub open spec fn read_plan_of(s: SerialPortSettings, buf_len: nat) -> TransferPlan {
    if buf_len == 0 {
        TransferPlan::Empty
    } else {
        match s.read_timeout {
            Some(t) => TransferPlan::WaitFirst { timeout_ms: t },
            None => TransferPlan::Direct,
        }
    }
}

/// The plan a write with these settings and this buffer length follows.
pub open spec fn write_plan_of(s: SerialPortSettings, buf_len: nat) -> TransferPlan {
    if buf_len == 0 {
        TransferPlan::Empty
    } else {
        match s.write_timeout {
            Some(t) => TransferPlan::WaitFirst { timeout_ms: t },
            None => TransferPlan::Direct,
        }
    }
}

/// Decides how a read must proceed: an empty buffer never reaches the
/// device, a configured read timeout bounds the wait for readiness, and
/// otherwise the transfer is attempted directly.
pub fn read_plan(settings: &SerialPortSettings, buf_len: usize) -> (r: TransferPlan)
    ensures
        r == read_plan_of(*settings, buf_len as nat),
{
    if buf_len == 0 {
        TransferPlan::Empty
    } else {
        match settings.read_timeout {
            Some(t) => TransferPlan::WaitFirst { timeout_ms: t },
            None => TransferPlan::Direct,
        }
    }
}

/// Decides how a write must proceed, as [`read_plan`] does for reads,
/// governed by the write timeout.
pub fn write_plan(settings: &SerialPortSettings, buf_len: usize) -> (r: TransferPlan)
    ensures
        r == write_plan_of(*settings, buf_len as nat),
{
    if buf_len == 0 {
        TransferPlan::Empty
    } else {
        match settings.write_timeout {
            Some(t) => TransferPlan::WaitFirst { timeout_ms: t },
            None => TransferPlan::Direct,
        }
    }
}

/// The readiness events the platform's waiting primitive reported for
/// the descriptor.
#[derive(Debug, Copy, Clone, PartialEq, Eq, Structural)]
pub struct PollEvents {
    /// POLLIN: data may be read
    pub readable: bool,
    /// POLLOUT: data may be written
    pub writable: bool,
    /// POLLERR: an error condition
    pub error: bool,
    /// POLLHUP: the peer hung up
    pub hang_up: bool,
    /// POLLNVAL: the descriptor is invalid
    pub invalid: bool,
    /// Any reported event besides the five above
    pub other: bool,
}

/// The readiness a waiting read or write asks for.
#[derive(Debug, Copy, Clone, PartialEq, Eq, Structural)]
pub enum PollInterest {
    /// Wait until the descriptor is readable
    Readable,
    /// Wait until the descriptor is writable
    Writable,
}

/// What a bounded wait for readiness concluded.
#[derive(Debug, Copy, Clone, PartialEq, Eq, Structural)]
pub enum WaitOutcome {
    /// Exactly the requested readiness arrived: transfer now.
    Ready,
    /// The wait elapsed without the event: report a timeout.
    TimedOut,
    /// The device hung up or the descriptor is invalid: report a broken
    /// pipe.
    BrokenPipe,
    /// Some other combination of events arrived: report an I/O error.
    Failed,
}

/// Exactly the requested readiness, and nothing else.
pub open spec fn events_match_interest(e: PollEvents, want: PollInterest) -> bool {
    match want {
        PollInterest::Readable => e == (PollEvents {
            readable: true,
            writable: false,
            error: false,
            hang_up: false,
            invalid: false,
            other: false,
        }),
        PollInterest::Writable => e == (PollEvents {
            readable: false,
            writable: true,
            error: false,
            hang_up: false,
            invalid: false,
            other: false,
        }),
    }
}

/// The conclusion of a bounded readiness wait, from what the waiting
/// primitive returned: a failed call and an event count other than one
/// are both timeouts, exactly the requested readiness is success, a
/// hang-up or invalid descriptor is a broken pipe, and anything else is
/// an I/O failure.
pub open spec fn wait_outcome_of(
    call_failed: bool,
    event_count: i32,
    revents: Option<PollEvents>,
    want: PollInterest,
) -> WaitOutcome {
    if call_failed {
        WaitOutcome::TimedOut
    } else if event_count != 1 {
        WaitOutcome::TimedOut
    } else {
        match revents {
            Some(e) => if events_match_interest(e, want) {
                WaitOutcome::Ready
            } else if e.hang_up || e.invalid {
                WaitOutcome::BrokenPipe
            } else {
                WaitOutcome::Failed
            },
            None => WaitOutcome::Failed,
        }
    }
}

/// Classifies what the platform's waiting primitive reported.
pub fn classify_wait(
    call_failed: bool,
    event_count: i32,
    revents: Option<PollEvents>,
    want: PollInterest,
) -> (r: WaitOutcome)
    ensures
        r == wait_outcome_of(call_failed, event_count, revents, want),
{
    if call_failed {
        return WaitOutcome::TimedOut;
    }
    if event_count != 1 {
        return WaitOutcome::TimedOut;
    }
    match revents {
        Some(e) => {
            let wanted = match want {
                PollInterest::Readable => PollEvents {
                    readable: true,
                    writable: false,
                    error: false,
                    hang_up: false,
                    invalid: false,
                    other: false,
                },
                PollInterest::Writable => PollEvents {
                    readable: false,
                    writable: true,
                    error: false,
                    hang_up: false,
                    invalid: false,
                    other: false,
                },
            };
            if e == wanted {
                WaitOutcome::Ready
            } else if e.hang_up || e.invalid {
                WaitOutcome::BrokenPipe
            } else {
                WaitOutcome::Failed
            }
        },
        None => WaitOutcome::Failed,
    }
}

/// A read timeout of `t` milliseconds makes a read with a non-empty
/// buffer wait first for at most `t`; a wait that elapses without the
/// requested event is reported as a timeout, never as data.
pub proof fn lemma_read_timeout_reported(s: SerialPortSettings, t: u128, buf_len: nat)
    requires
        s.read_timeout == Some(t),
        buf_len > 0,
    ensures
        read_plan_of(s, buf_len) == (TransferPlan::WaitFirst { timeout_ms: t }),
        forall|failed: bool, revents: Option<PollEvents>|
            wait_outcome_of(failed, 0, revents, PollInterest::Readable) == WaitOutcome::TimedOut,
{
}

/// The bit the platform's modem-status word uses for each line.
pub open spec fn posix_modem_mask(line: crate::port::ModemLine) -> u32 {
    match line {
        crate::port::ModemLine::ClearToSend => 0x020u32,
        crate::port::ModemLine::DataSetReady => 0x100u32,
        crate::port::ModemLine::RingIndicator => 0x080u32,
        crate::port::ModemLine::CarrierDetect => 0x040u32,
    }
}

/// Is the given line-status signal asserted in the platform's
/// modem-status word?
pub fn modem_line_active(status: u32, line: crate::port::ModemLine) -> (r: bool)
    ensures
        r == ((status & posix_modem_mask(line)) != 0),
{
    let mask: u32 = match line {
        crate::port::ModemLine::ClearToSend => 0x020,
        crate::port::ModemLine::DataSetReady => 0x100,
        crate::port::ModemLine::RingIndicator => 0x080,
        crate::port::ModemLine::CarrierDetect => 0x040,
    };
    (status & mask) != 0
}

/// Should the device be opened with the non-blocking flag? Yes exactly
/// when the settings ask for a non-blocking port.
pub fn open_nonblocking(settings: &SerialPortSettings) -> (r: bool)
    ensures
        r <==> !settings.blocking,
{
    !settings.blocking
}

/// Should opening the port assert DTR? Yes unless DSR/DTR flow control
/// manages that line itself.
pub fn should_assert_dtr(flow_control: FlowControl) -> (r: bool)
    ensures
        r <==> flow_control != FlowControl::DsrDtr,
{
    flow_control != FlowControl::DsrDtr
}

/// Should opening the port assert RTS? Yes unless RTS/CTS flow control
/// manages that line itself.
pub fn should_assert_rts(flow_control: FlowControl) -> (r: bool)
    ensures
        r <==> flow_control != FlowControl::RtsCts,
{
    flow_control != FlowControl::RtsCts
}

/// The glob patterns the enumerator scans for candidate devices:
/// built-in UARTs, several USB-serial adapter families, Bluetooth
/// RFCOMM and USB-gadget serial.
pub fn tty_device_patterns() -> (r: Vec<&'static str>)
    ensures
        r@.len() == 8,
        r@[0]@ == "/dev/ttyS*"@,
        r@[1]@ == "/dev/ttyUSB*"@,
        r@[2]@ == "/dev/ttyXRUSB*"@,
        r@[3]@ == "/dev/ttyACM*"@,
        r@[4]@ == "/dev/ttyAMA*"@,
        r@[5]@ == "/dev/rfcomm*"@,
        r@[6]@ == "/dev/ttyAP*"@,
        r@[7]@ == "/dev/ttyGS*"@,
{
    let mut r: Vec<&'static str> = Vec::new();
    r.push("/dev/ttyS*");
    r.push("/dev/ttyUSB*");
    r.push("/dev/ttyXRUSB*");
    r.push("/dev/ttyACM*");
    r.push("/dev/ttyAMA*");
    r.push("/dev/rfcomm*");
    r.push("/dev/ttyAP*");
    r.push("/dev/ttyGS*");
    r
}

/// Does this subsystem path name the platform bus, whose TTY nodes the
/// enumerator skips? True exactly when the path ends in `platform`.
pub open spec fn is_platform_subsystem(s: Seq<u8>) -> bool {
    &&& s.len() >= 8
    &&& s[s.len() - 8] == 112  // 'p'
    &&& s[s.len() - 7] == 108  // 'l'
    &&& s[s.len() - 6] == 97  // 'a'
    &&& s[s.len() - 5] == 116  // 't'
    &&& s[s.len() - 4] == 102  // 'f'
    &&& s[s.len() - 3] == 111  // 'o'
    &&& s[s.len() - 2] == 114  // 'r'
    &&& s[s.len() - 1] == 109  // 'm'
}

/// Decides whether a device's subsystem path names the platform bus.
pub fn subsystem_is_platform(path: &[u8]) -> (r: bool)
    ensures
        r == is_platform_subsystem(path@),
{
    let n: usize = path.len();
    n >= 8 && path[n - 8] == 112 && path[n - 7] == 108 && path[n - 6] == 97 && path[n - 5] == 116
        && path[n - 4] == 102 && path[n - 3] == 111 && path[n - 2] == 114 && path[n - 1] == 109
}

/// Does the line carry the uevent `PRODUCT=` key?
pub open spec fn is_product_line(l: Seq<u8>) -> bool {
    &&& l.len() >= 8
    &&& l[0] == 80  // 'P'
    &&& l[1] == 82  // 'R'
    &&& l[2] == 79  // 'O'
    &&& l[3] == 68  // 'D'
    &&& l[4] == 85  // 'U'
    &&& l[5] == 67  // 'C'
    &&& l[6] == 84  // 'T'
    &&& l[7] == 61  // '='
}

/// The identifier pair after reading one uevent line: a `PRODUCT=` line
/// whose payload has exactly three `/`-separated fields replaces the
/// vendor and the product ID with the fields that parse as hexadecimal;
/// every other line leaves them unchanged.
pub open spec fn ids_after_line(l: Seq<u8>, vid: u16, pid: u16) -> (u16, u16) {
    if is_product_line(l) {
        let parts = crate::parse::split_bytes(l.skip(8), 47);
        if parts.len() == 3 {
            (
                if crate::parse::is_valid_hex_u16(parts[0]) {
                    crate::parse::hex_digits_value(crate::parse::hex_body(parts[0])) as u16
                } else {
                    vid
                },
                if crate::parse::is_valid_hex_u16(parts[1]) {
                    crate::parse::hex_digits_value(crate::parse::hex_body(parts[1])) as u16
                } else {
                    pid
                },
            )
        } else {
            (vid, pid)
        }
    } else {
        (vid, pid)
    }
}

/// The identifier pair after reading the lines in order; a later
/// `PRODUCT=` line overrides an earlier one.
pub open spec fn ids_after_lines(lines: Seq<Seq<u8>>, vid: u16, pid: u16) -> (u16, u16)
    decreases lines.len(),
{
    if lines.len() == 0 {
        (vid, pid)
    } else {
        let step = ids_after_line(lines.first(), vid, pid);
        ids_after_lines(lines.drop_first(), step.0, step.1)
    }
}

/// The vendor and product IDs a uevent file reports, zero when absent.
pub open spec fn uevent_ids(content: Seq<u8>) -> (u16, u16) {
    ids_after_lines(crate::parse::split_lines(content), 0, 0)
}

/// Reads one line of a uevent file.
fn ids_step(line: &[u8], vid: u16, pid: u16) -> (r: (u16, u16))
    ensures
        r == ids_after_line(line@, vid, pid),
{
    let is_product = line.len() >= 8 && line[0] == 80 && line[1] == 82 && line[2] == 79 && line[3]
        == 68 && line[4] == 85 && line[5] == 67 && line[6] == 84 && line[7] == 61;
    if !is_product {
        return (vid, pid);
    }
    let payload = vstd::slice::slice_subrange(line, 8, line.len());
    proof {
        assert(payload@ =~= line@.skip(8));
    }
    let parts = crate::parse::split_on(payload, 47);
    let ghost sparts = crate::parse::split_bytes(line@.skip(8), 47);
    if parts.len() != 3 {
        return (vid, pid);
    }
    proof {
        assert(sparts[0] == parts@.map_values(|part: Vec<u8>| part@)[0]);
        assert(sparts[1] == parts@.map_values(|part: Vec<u8>| part@)[1]);
    }
    let v: u16 = match crate::parse::parse_hex_u16(parts[0].as_slice()) {
        Some(x) => x,
        None => vid,
    };
    let p: u16 = match crate::parse::parse_hex_u16(parts[1].as_slice()) {
        Some(x) => x,
        None => pid,
    };
    (v, p)
}

/// Reads the vendor and product IDs out of a device's uevent file:
/// the `PRODUCT=` line carries them as the first two of three
/// `/`-separated hexadecimal fields. Devices that report no such line
/// keep the zero IDs.
pub fn uevent_vid_pid(content: &[u8]) -> (r: (u16, u16))
    ensures
        r == uevent_ids(content@),
{
    let parts = crate::parse::split_on(content, 10);
    let n: usize = parts.len();
    let last_empty = parts[n - 1].len() == 0;
    let count: usize = if last_empty {
        n - 1
    } else {
        n
    };
    let ghost sparts = crate::parse::split_bytes(content@, 10);
    let ghost lines = crate::parse::split_lines(content@);
    proof {
        assert(sparts.last() == parts@.map_values(|part: Vec<u8>| part@).last());
        if last_empty {
            assert(lines =~= sparts.drop_last().map_values(|l: Seq<u8>| crate::parse::strip_cr(l)));
        } else {
            assert(lines =~= sparts.subrange(0, sparts.len() - 1).map_values(
                |l: Seq<u8>| crate::parse::strip_cr(l),
            ).push(sparts.last()));
        }
        assert(lines.len() == count);
        assert(lines.skip(0) =~= lines);
    }
    let mut vid: u16 = 0;
    let mut pid: u16 = 0;
    let mut k: usize = 0;
    while k < count
        invariant
            k <= count,
            count <= n == parts@.len(),
            lines.len() == count,
            parts@.map_values(|part: Vec<u8>| part@) == sparts,
            sparts == crate::parse::split_bytes(content@, 10),
            lines == crate::parse::split_lines(content@),
            forall|j: int|
                0 <= j < count && j + 1 < n ==> lines[j] == crate::parse::strip_cr(sparts[j]),
            forall|j: int| 0 <= j < count && j + 1 == n ==> lines[j] == sparts[j],
            ids_after_lines(lines.skip(k as int), vid, pid) == uevent_ids(content@),
        decreases count - k,
    {
        let whole = parts[k].as_slice();
        let line: &[u8] = if k + 1 < n && whole.len() > 0 && whole[whole.len() - 1] == 13 {
            vstd::slice::slice_subrange(whole, 0, whole.len() - 1)
        } else {
            whole
        };
        proof {
            if k + 1 < n {
                assert(line@ =~= crate::parse::strip_cr(sparts[k as int]));
            }
            assert(line@ == lines[k as int]);
        }
        let step = ids_step(line, vid, pid);
        vid = step.0;
        pid = step.1;
        proof {
            assert(lines.skip(k as int).first() == lines[k as int]);
            assert(lines.skip(k as int).drop_first() =~= lines.skip(k + 1));
        }
        k = k + 1;
    }
    proof {
        assert(lines.skip(count as int) =~= Seq::<Seq<u8>>::empty());
    }
    (vid, pid)
}

/// What the enumerator records for one candidate device, given the
/// content of its `uevent` file and its subsystem path where the sysfs
/// nodes exist: nothing for a device on the platform bus, and otherwise
/// the vendor and product IDs its `uevent` file reports, zero when
/// absent.
pub fn posix_port_ids(uevent: Option<&[u8]>, subsystem: Option<&[u8]>) -> (r: Option<(u16, u16)>)
    ensures
        r is None <==> (subsystem matches Some(sub) && is_platform_subsystem(sub@)),
        r matches Some(ids) ==> ids == (match uevent {
            Some(content) => uevent_ids(content@),
            None => (0u16, 0u16),
        }),
{
    match subsystem {
        Some(sub) => {
            if subsystem_is_platform(sub) {
                return None;
            }
        },
        None => {},
    }
    match uevent {
        Some(content) => Some(uevent_vid_pid(content)),
        None => Some((0, 0)),
    }
}

} // verus!
