use serial_rs::posix::apply_settings;
use serial_rs::posix::classify_wait;
use serial_rs::posix::modem_line_active;
use serial_rs::posix::open_nonblocking;
use serial_rs::posix::posix_port_ids;
use serial_rs::posix::posix_speed_for_baud;
use serial_rs::posix::read_plan;
use serial_rs::posix::should_assert_dtr;
use serial_rs::posix::should_assert_rts;
use serial_rs::posix::subsystem_is_platform;
use serial_rs::posix::tty_device_patterns;
use serial_rs::posix::uevent_vid_pid;
use serial_rs::posix::write_plan;
use serial_rs::posix::PollEvents;
use serial_rs::posix::PollInterest;
use serial_rs::posix::TermiosConfig;
use serial_rs::posix::TransferPlan;
use serial_rs::posix::WaitOutcome;
use serial_rs::FlowControl;
use serial_rs::ModemLine;
use serial_rs::Parity;
use serial_rs::SerialError;
use serial_rs::SerialPortSettings;
use serial_rs::StopBits;

fn arbitrary_current() -> TermiosConfig {
    TermiosConfig {
        local_mode: false,
        receiver_enabled: false,
        byte_size: serial_rs::ByteSize::Five,
        two_stop_bits: true,
        parity_enabled: true,
        parity_odd: true,
        parity_mark_space: true,
        hardware_flow_control: true,
        canonical: true,
        echo: true,
        echo_erase: true,
        echo_kill: true,
        echo_newline: true,
        signals: true,
        extended_input: true,
        echo_control: true,
        echo_kill_erase: true,
        output_processing: true,
        map_nl_to_crnl: true,
        map_cr_to_nl_out: true,
        map_nl_to_cr_in: true,
        ignore_cr: true,
        map_cr_to_nl_in: true,
        ignore_break: true,
        mark_parity_errors: true,
        input_parity_check: true,
        strip_eighth_bit: true,
        software_flow_out: true,
        software_flow_in: true,
        any_char_restarts: true,
        vmin: 77,
        vtime: 99,
        input_speed: 0,
        output_speed: 0,
    }
}

const TABLE: [(u32, u32); 30] = [
    (50, 1),
    (75, 2),
    (110, 3),
    (134, 4),
    (150, 5),
    (200, 6),
    (300, 7),
    (600, 8),
    (1200, 9),
    (1800, 10),
    (2400, 11),
    (4800, 12),
    (9600, 13),
    (19200, 14),
    (38400, 15),
    (57600, 4097),
    (115200, 4098),
    (230400, 4099),
    (460800, 4100),
    (500000, 4101),
    (576000, 4102),
    (921600, 4103),
    (1000000, 4104),
    (1152000, 4105),
    (1500000, 4106),
    (2000000, 4107),
    (2500000, 4108),
    (3000000, 4109),
    (3500000, 4110),
    (4000000, 4111),
];

#[test]
fn every_table_rate_reconfigures_with_its_speed() {
    for (rate, speed) in TABLE {
        let s = SerialPortSettings::default().baud(rate);
        let cfg = apply_settings(&s, &arbitrary_current())
            .unwrap_or_else(|_| panic!("rate {rate} should be accepted"));
        assert_eq!(cfg.input_speed, speed);
        assert_eq!(cfg.output_speed, speed);
        assert_eq!(posix_speed_for_baud(rate), Some(speed));
    }
}

#[test]
fn absent_rates_fail_with_library_error() {
    for rate in [0u32, 1, 51, 9601, 128000, 250000, 4000001, u32::MAX] {
        let s = SerialPortSettings::default().baud(rate);
        match apply_settings(&s, &arbitrary_current()) {
            Err(SerialError::LibraryError(msg)) => {
                assert_eq!(msg, format!("unsupported baud rate {rate}"));
            }
            _ => panic!("rate {rate} should be rejected"),
        }
        assert_eq!(posix_speed_for_baud(rate), None);
    }
}

#[test]
fn one_point_five_stop_bits_always_fails() {
    for rate in [9600u32, 115200] {
        for fc in [
            FlowControl::Disabled,
            FlowControl::DsrDtr,
            FlowControl::XonXoff,
            FlowControl::RtsCts,
        ] {
            let s = SerialPortSettings::default()
                .baud(rate)
                .stop_bits(StopBits::OnePointFive)
                .set_flow_control(fc);
            match apply_settings(&s, &arbitrary_current()) {
                Err(SerialError::LibraryError(msg)) => {
                    assert_eq!(msg, "1.5 stop bits are unsupported on this platform");
                }
                _ => panic!("1.5 stop bits should be rejected"),
            }
        }
    }
}

#[test]
fn inter_byte_timeout_maps_to_vmin_vtime() {
    let mut s = SerialPortSettings::default();
    s.inter_byte_timeout = Some(2);
    let cfg = apply_settings(&s, &arbitrary_current()).unwrap();
    assert_eq!(cfg.vmin, 1);
    assert_eq!(cfg.vtime, 20);

    s.inter_byte_timeout = Some(25);
    let cfg = apply_settings(&s, &arbitrary_current()).unwrap();
    assert_eq!(cfg.vmin, 1);
    assert_eq!(cfg.vtime, 250);

    s.inter_byte_timeout = None;
    let cfg = apply_settings(&s, &arbitrary_current()).unwrap();
    assert_eq!(cfg.vmin, 0);
    assert_eq!(cfg.vtime, 0);
}

#[test]
fn oversized_inter_byte_timeout_fails() {
    let mut s = SerialPortSettings::default();
    s.inter_byte_timeout = Some(26);
    match apply_settings(&s, &arbitrary_current()) {
        Err(SerialError::LibraryError(msg)) => {
            assert_eq!(msg, "inter-byte timeout exceeds the VTIME range");
        }
        _ => panic!("a 26-unit inter-byte timeout should be rejected"),
    }
}

#[test]
fn baud_error_takes_precedence_over_stop_bits() {
    let s = SerialPortSettings::default()
        .baud(12345)
        .stop_bits(StopBits::OnePointFive);
    match apply_settings(&s, &arbitrary_current()) {
        Err(SerialError::LibraryError(msg)) => assert_eq!(msg, "unsupported baud rate 12345"),
        _ => panic!("should fail"),
    }
}

#[test]
fn reconfigure_is_idempotent() {
    let s = SerialPortSettings::default()
        .baud(115200)
        .parity(Parity::Odd)
        .stop_bits(StopBits::Two)
        .set_flow_control(FlowControl::XonXoff);
    let once = apply_settings(&s, &arbitrary_current()).unwrap();
    let twice = apply_settings(&s, &once).unwrap();
    assert_eq!(once, twice);
}

#[test]
fn raw_mode_is_forced() {
    let s = SerialPortSettings::default();
    let cfg = apply_settings(&s, &arbitrary_current()).unwrap();
    assert!(cfg.local_mode);
    assert!(cfg.receiver_enabled);
    assert!(!cfg.canonical);
    assert!(!cfg.echo);
    assert!(!cfg.echo_erase);
    assert!(!cfg.echo_kill);
    assert!(!cfg.echo_newline);
    assert!(!cfg.signals);
    assert!(!cfg.extended_input);
    assert!(!cfg.echo_control);
    assert!(!cfg.echo_kill_erase);
    assert!(!cfg.output_processing);
    assert!(!cfg.map_nl_to_crnl);
    assert!(!cfg.map_cr_to_nl_out);
    assert!(!cfg.map_nl_to_cr_in);
    assert!(!cfg.ignore_cr);
    assert!(!cfg.map_cr_to_nl_in);
    assert!(!cfg.ignore_break);
    assert!(!cfg.mark_parity_errors);
    assert!(!cfg.input_parity_check);
    assert!(!cfg.strip_eighth_bit);
    assert!(!cfg.parity_mark_space);
}

#[test]
fn parity_bits_follow_the_request() {
    let current = arbitrary_current();
    let none = apply_settings(&SerialPortSettings::default(), &current).unwrap();
    assert!(!none.parity_enabled);
    assert!(!none.parity_odd);
    let even =
        apply_settings(&SerialPortSettings::default().parity(Parity::Even), &current).unwrap();
    assert!(even.parity_enabled);
    assert!(!even.parity_odd);
    let odd = apply_settings(&SerialPortSettings::default().parity(Parity::Odd), &current).unwrap();
    assert!(odd.parity_enabled);
    assert!(odd.parity_odd);
}

#[test]
fn flow_control_flags_follow_the_request() {
    let current = arbitrary_current();
    for fc in [FlowControl::Disabled, FlowControl::DsrDtr] {
        let cfg = apply_settings(&SerialPortSettings::default().set_flow_control(fc), &current)
            .unwrap();
        assert!(!cfg.software_flow_out);
        assert!(!cfg.software_flow_in);
        assert!(!cfg.any_char_restarts);
        assert!(!cfg.hardware_flow_control);
    }
    let xon = apply_settings(
        &SerialPortSettings::default().set_flow_control(FlowControl::XonXoff),
        &current,
    )
    .unwrap();
    assert!(xon.software_flow_out);
    assert!(xon.software_flow_in);
    // IXANY is left as the device had it under XON/XOFF.
    assert!(xon.any_char_restarts);
    assert!(!xon.hardware_flow_control);
    let rts = apply_settings(
        &SerialPortSettings::default().set_flow_control(FlowControl::RtsCts),
        &current,
    )
    .unwrap();
    assert!(!rts.software_flow_out);
    assert!(!rts.software_flow_in);
    assert!(rts.hardware_flow_control);
}

#[test]
fn stop_and_byte_size_bits_follow_the_request() {
    let current = arbitrary_current();
    let one = apply_settings(&SerialPortSettings::default(), &current).unwrap();
    assert!(!one.two_stop_bits);
    assert_eq!(one.byte_size, serial_rs::ByteSize::Eight);
    let two = apply_settings(
        &SerialPortSettings::default()
            .stop_bits(StopBits::Two)
            .byte_size(serial_rs::ByteSize::Six),
        &current,
    )
    .unwrap();
    assert!(two.two_stop_bits);
    assert_eq!(two.byte_size, serial_rs::ByteSize::Six);
}

#[test]
fn zero_length_buffers_never_touch_the_device() {
    let s = SerialPortSettings::default().read_timeout(Some(1000));
    assert_eq!(read_plan(&s, 0), TransferPlan::Empty);
    assert_eq!(write_plan(&s, 0), TransferPlan::Empty);
    let blocking = SerialPortSettings::default();
    assert_eq!(read_plan(&blocking, 0), TransferPlan::Empty);
    assert_eq!(write_plan(&blocking, 0), TransferPlan::Empty);
}

#[test]
fn transfer_plans_follow_the_timeouts() {
    let s = SerialPortSettings::default()
        .read_timeout(Some(100))
        .write_timeout(None);
    assert_eq!(read_plan(&s, 16), TransferPlan::WaitFirst { timeout_ms: 100 });
    assert_eq!(write_plan(&s, 16), TransferPlan::Direct);
    let t = SerialPortSettings::default()
        .read_timeout(None)
        .write_timeout(Some(7));
    assert_eq!(read_plan(&t, 1), TransferPlan::Direct);
    assert_eq!(write_plan(&t, 1), TransferPlan::WaitFirst { timeout_ms: 7 });
}

fn only_readable() -> PollEvents {
    PollEvents {
        readable: true,
        writable: false,
        error: false,
        hang_up: false,
        invalid: false,
        other: false,
    }
}

#[test]
fn elapsed_wait_is_a_timeout() {
    assert_eq!(
        classify_wait(false, 0, None, PollInterest::Readable),
        WaitOutcome::TimedOut
    );
    assert_eq!(
        classify_wait(false, 0, Some(only_readable()), PollInterest::Readable),
        WaitOutcome::TimedOut
    );
    assert_eq!(
        classify_wait(true, 1, Some(only_readable()), PollInterest::Readable),
        WaitOutcome::TimedOut
    );
}

#[test]
fn exact_readiness_is_ready() {
    assert_eq!(
        classify_wait(false, 1, Some(only_readable()), PollInterest::Readable),
        WaitOutcome::Ready
    );
    let only_writable = PollEvents {
        readable: false,
        writable: true,
        error: false,
        hang_up: false,
        invalid: false,
        other: false,
    };
    assert_eq!(
        classify_wait(false, 1, Some(only_writable), PollInterest::Writable),
        WaitOutcome::Ready
    );
}

#[test]
fn hangup_or_invalid_descriptor_is_broken_pipe() {
    let hup = PollEvents {
        readable: false,
        writable: false,
        error: false,
        hang_up: true,
        invalid: false,
        other: false,
    };
    assert_eq!(
        classify_wait(false, 1, Some(hup), PollInterest::Readable),
        WaitOutcome::BrokenPipe
    );
    let nval = PollEvents {
        readable: false,
        writable: false,
        error: false,
        hang_up: false,
        invalid: true,
    other: false,
    };
    assert_eq!(
        classify_wait(false, 1, Some(nval), PollInterest::Writable),
        WaitOutcome::BrokenPipe
    );
}

#[test]
fn unexpected_events_fail() {
    let err = PollEvents {
        readable: true,
        writable: false,
        error: true,
        hang_up: false,
        invalid: false,
        other: false,
    };
    assert_eq!(
        classify_wait(false, 1, Some(err), PollInterest::Readable),
        WaitOutcome::Failed
    );
    assert_eq!(
        classify_wait(false, 1, None, PollInterest::Readable),
        WaitOutcome::Failed
    );
}

#[test]
fn modem_lines_read_their_bit() {
    assert!(modem_line_active(0x020, ModemLine::ClearToSend));
    assert!(modem_line_active(0x100, ModemLine::DataSetReady));
    assert!(modem_line_active(0x080, ModemLine::RingIndicator));
    assert!(modem_line_active(0x040, ModemLine::CarrierDetect));
    assert!(!modem_line_active(0x100, ModemLine::ClearToSend));
    assert!(!modem_line_active(0x020, ModemLine::DataSetReady));
    assert!(!modem_line_active(!0x080u32, ModemLine::RingIndicator));
    assert!(!modem_line_active(0, ModemLine::CarrierDetect));
}

#[test]
fn control_lines_asserted_unless_flow_control_owns_them() {
    assert!(should_assert_dtr(FlowControl::Disabled));
    assert!(should_assert_dtr(FlowControl::RtsCts));
    assert!(should_assert_dtr(FlowControl::XonXoff));
    assert!(!should_assert_dtr(FlowControl::DsrDtr));
    assert!(should_assert_rts(FlowControl::Disabled));
    assert!(should_assert_rts(FlowControl::DsrDtr));
    assert!(should_assert_rts(FlowControl::XonXoff));
    assert!(!should_assert_rts(FlowControl::RtsCts));
}

#[test]
fn uevent_product_line_yields_ids() {
    let content = b"MAJOR=188\nMINOR=0\nPRODUCT=1a86/7523/264\nDEVNAME=ttyUSB0\n";
    assert_eq!(uevent_vid_pid(content), (0x1a86, 0x7523));
}

#[test]
fn uevent_without_product_line_yields_zero() {
    assert_eq!(uevent_vid_pid(b"MAJOR=4\nMINOR=64\n"), (0, 0));
    assert_eq!(uevent_vid_pid(b""), (0, 0));
}

#[test]
fn uevent_product_line_needs_three_fields() {
    assert_eq!(uevent_vid_pid(b"PRODUCT=1a86/7523\n"), (0, 0));
    assert_eq!(uevent_vid_pid(b"PRODUCT=1a86/7523/264/9\n"), (0, 0));
}

#[test]
fn uevent_bad_hex_field_is_skipped() {
    assert_eq!(uevent_vid_pid(b"PRODUCT=xyz/7523/264\n"), (0, 0x7523));
    assert_eq!(uevent_vid_pid(b"PRODUCT=1a86//264\n"), (0x1a86, 0));
}

#[test]
fn uevent_later_product_line_wins() {
    let content = b"PRODUCT=1111/2222/0\nPRODUCT=3333/4444/0\n";
    assert_eq!(uevent_vid_pid(content), (0x3333, 0x4444));
}

#[test]
fn uevent_crlf_lines_parse_too() {
    let content = b"MAJOR=188\r\nPRODUCT=abc/def/0\r\n";
    assert_eq!(uevent_vid_pid(content), (0xabc, 0xdef));
}

#[test]
fn device_patterns_cover_the_driver_families() {
    let pats = tty_device_patterns();
    assert_eq!(
        pats,
        vec![
            "/dev/ttyS*",
            "/dev/ttyUSB*",
            "/dev/ttyXRUSB*",
            "/dev/ttyACM*",
            "/dev/ttyAMA*",
            "/dev/rfcomm*",
            "/dev/ttyAP*",
            "/dev/ttyGS*",
        ]
    );
}

#[test]
fn platform_bus_devices_are_skipped() {
    assert!(subsystem_is_platform(b"/sys/bus/platform"));
    assert!(!subsystem_is_platform(b"/sys/bus/usb"));
    assert!(!subsystem_is_platform(b"/sys/bus/usb-serial"));
    assert!(!subsystem_is_platform(b""));
    assert_eq!(
        posix_port_ids(Some(&b"PRODUCT=1/2/3\n"[..]), Some(&b"/sys/bus/platform"[..])),
        None
    );
    assert_eq!(
        posix_port_ids(Some(&b"PRODUCT=1/2/3\n"[..]), Some(&b"/sys/bus/usb"[..])),
        Some((1, 2))
    );
    assert_eq!(posix_port_ids(None, None), Some((0, 0)));
}

#[test]
fn unmodeled_events_are_not_ready() {
    let with_other = PollEvents {
        readable: true,
        writable: false,
        error: false,
        hang_up: false,
        invalid: false,
        other: true,
    };
    assert_eq!(
        classify_wait(false, 1, Some(with_other), PollInterest::Readable),
        WaitOutcome::Failed
    );
}

#[test]
fn loopback_scenario_configuration_applies() {
    // The settings of the loopback exercise: 115200-8-N-1, no flow
    // control, a 100 ms read timeout. The wiring itself needs hardware;
    // what the library decides about these settings is checked here.
    let s = SerialPortSettings::default()
        .baud(115200)
        .byte_size(serial_rs::ByteSize::Eight)
        .parity(Parity::Disabled)
        .stop_bits(StopBits::One)
        .set_flow_control(FlowControl::Disabled)
        .read_timeout(Some(100));
    let cfg = apply_settings(&s, &arbitrary_current()).unwrap();
    assert_eq!(cfg.output_speed, 4098);
    assert!(!cfg.parity_enabled);
    assert!(!cfg.two_stop_bits);
    assert_eq!(read_plan(&s, 64), TransferPlan::WaitFirst { timeout_ms: 100 });
    let t = serial_rs::windows::windows_timeouts(&s);
    assert_eq!(t.read_total_timeout_constant, 100);
}

#[test]
fn nonblocking_open_follows_the_settings() {
    assert!(!open_nonblocking(&SerialPortSettings::default()));
    assert!(open_nonblocking(&SerialPortSettings::default().set_blocking(false)));
}
