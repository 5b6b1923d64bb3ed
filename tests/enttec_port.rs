use dmx_port::enttec::{
    is_enttec, write_dmx_frame, write_packet, EnttecDmxPort, EnttecParams, EnttecWriteError,
    LinkState, OpenStep, Platform, SerialPortInfoDef, SerialPortTypeDef, UsbPortInfoDef, WriteStep,
};
use dmx_port::strings::str_contains;
use dmx_port::{IoErrorKind, IoFailure, OpenError, WriteError};

fn usb_info(name: &str, product: Option<&str>, manufacturer: Option<&str>, sn: Option<&str>) -> SerialPortInfoDef {
    SerialPortInfoDef {
        port_name: name.to_string(),
        port_type: SerialPortTypeDef::UsbPort(UsbPortInfoDef {
            vid: 0x0403,
            pid: 0x6001,
            serial_number: sn.map(|s| s.to_string()),
            manufacturer: manufacturer.map(|s| s.to_string()),
            product: product.map(|s| s.to_string()),
        }),
    }
}

fn dongle() -> SerialPortInfoDef {
    usb_info("/dev/ttyUSB0", Some("DMX USB PRO"), Some("FTDI"), Some("EN123"))
}

fn failure(kind: IoErrorKind, message: &str) -> IoFailure {
    IoFailure { kind, message: message.to_string() }
}

const DEFAULT_PARAMS_PACKET: [u8; 10] = [0x7E, 4, 5, 0, 0, 0, 9, 1, 40, 0xE7];

#[test]
fn params_packet_of_defaults() {
    let mut w = vec![];
    EnttecParams::default().write_into(&mut w);
    assert_eq!(w, DEFAULT_PARAMS_PACKET.to_vec());
}

#[test]
fn packet_with_and_without_start_code() {
    let mut w = vec![];
    write_packet(6, &[1, 2], true, &mut w);
    assert_eq!(w, vec![0x7E, 6, 3, 0, 0, 1, 2, 0xE7]);
    let mut w = vec![];
    write_packet(4, &[], false, &mut w);
    assert_eq!(w, vec![0x7E, 4, 0, 0, 0xE7]);
    let mut w = vec![];
    write_packet(6, &[0u8; 300], false, &mut w);
    assert_eq!(&w[..4], &[0x7E, 6, 44, 1]);
    assert_eq!(w.len(), 305);
}

#[test]
fn short_frame_is_padded_to_24_channels() {
    let mut w = vec![];
    write_dmx_frame(&[255], &mut w);
    let mut expected = vec![0x7E, 6, 25, 0, 0, 255];
    expected.extend(std::iter::repeat(0).take(23));
    expected.push(0xE7);
    assert_eq!(w, expected);
    let mut w = vec![];
    write_dmx_frame(&[], &mut w);
    assert_eq!(w.len(), 4 + 25 + 1);
    assert!(w[4..29].iter().all(|b| *b == 0));
}

#[test]
fn frame_of_24_channels_is_unchanged() {
    let frame: Vec<u8> = (1..=24).collect();
    let mut w = vec![];
    write_dmx_frame(&frame, &mut w);
    assert_eq!(&w[..5], &[0x7E, 6, 25, 0, 0]);
    assert_eq!(&w[5..29], &frame[..]);
    assert_eq!(w[29], 0xE7);
}

#[test]
fn long_frame_is_cut_at_512_channels() {
    let frame: Vec<u8> = (0..600).map(|i| (i % 256) as u8).collect();
    let mut w = vec![];
    write_dmx_frame(&frame, &mut w);
    assert_eq!(&w[..5], &[0x7E, 6, 0x01, 0x02, 0]);
    assert_eq!(&w[5..517], &frame[..512]);
    assert_eq!(w[517], 0xE7);
    assert_eq!(w.len(), 518);
}

#[test]
fn setters_refuse_out_of_range_values() {
    let mut port = EnttecDmxPort::new(dongle());
    assert!(!port.set_break_time(8));
    assert!(!port.set_break_time(128));
    assert!(port.set_break_time(127));
    assert!(!port.set_mark_after_break_time(0));
    assert!(port.set_mark_after_break_time(50));
    assert!(!port.set_refresh_rate(41));
    assert!(port.set_refresh_rate(0));
    let p = port.params();
    assert_eq!((p.break_time(), p.mark_after_break_time(), p.output_rate()), (127, 50, 0));
}

#[test]
fn identification_rules() {
    assert!(is_enttec(&dongle(), Platform::Unix));
    assert!(is_enttec(&dongle(), Platform::Windows));
    let other_product = usb_info("/dev/ttyUSB1", Some("Other"), Some("FTDI"), None);
    assert!(!is_enttec(&other_product, Platform::Unix));
    assert!(is_enttec(&other_product, Platform::Windows));
    let cu = usb_info("/dev/cu.usbserial", Some("DMX USB PRO"), None, None);
    assert!(!is_enttec(&cu, Platform::Unix));
    assert!(!is_enttec(&cu, Platform::Windows));
    let pci = SerialPortInfoDef { port_name: "/dev/ttyS0".to_string(), port_type: SerialPortTypeDef::PciPort };
    assert!(!is_enttec(&pci, Platform::Unix));
    assert!(str_contains("/dev/ttyUSB0", "tty"));
    assert!(!str_contains("COM3", "tty"));
}

#[test]
fn display_id_prefers_serial_number() {
    assert_eq!(EnttecDmxPort::new(dongle()).display_id(), "EN123");
    let no_sn = usb_info("/dev/ttyUSB2", Some("DMX USB PRO"), None, None);
    assert_eq!(EnttecDmxPort::new(no_sn).display_id(), "/dev/ttyUSB2");
}

fn open_port(port: &mut EnttecDmxPort) {
    assert_eq!(port.begin_open(), OpenStep::Connect);
    let params = port.device_opened(Ok(())).unwrap();
    assert_eq!(params, DEFAULT_PARAMS_PACKET.to_vec());
    assert_eq!(port.state(), LinkState::Configuring);
    port.params_written(Ok(())).unwrap();
    assert!(port.is_open());
}

#[test]
fn write_to_closed_port_reopens_it() {
    let mut port = EnttecDmxPort::new(dongle());
    assert!(!port.is_open());
    assert_eq!(port.begin_write(&[1, 2, 3]), WriteStep::Reopen);
    open_port(&mut port);
    let mut expected = vec![];
    write_dmx_frame(&[1, 2, 3], &mut expected);
    assert_eq!(port.begin_write(&[1, 2, 3]), WriteStep::Send(expected));
    assert!(port.frame_written(Ok(())).is_ok());
    assert_eq!(port.state(), LinkState::Open);
}

#[test]
fn write_with_device_absent_reports_disconnected() {
    let mut port = EnttecDmxPort::new(dongle());
    assert_eq!(port.begin_write(&[1]), WriteStep::Reopen);
    assert_eq!(port.begin_open(), OpenStep::Connect);
    let err = port.device_opened(Err(failure(IoErrorKind::NotFound, "gone"))).unwrap_err();
    assert!(matches!(err, OpenError::NotConnected));
    assert!(matches!(port.reopen_failed(err), WriteError::Disconnected));
    assert_eq!(port.state(), LinkState::Closed);
}

#[test]
fn open_twice_sends_parameters_once() {
    let mut port = EnttecDmxPort::new(dongle());
    open_port(&mut port);
    assert_eq!(port.begin_open(), OpenStep::AlreadyOpen);
    assert!(port.is_open());
}

#[test]
fn open_failure_other_than_absence() {
    let mut port = EnttecDmxPort::new(dongle());
    port.begin_open();
    match port.device_opened(Err(failure(IoErrorKind::Other, "busy"))) {
        Err(OpenError::Other(m)) => assert_eq!(m, "busy"),
        other => panic!("unexpected {:?}", other),
    }
    assert!(!port.is_open());
}

#[test]
fn params_write_failure_closes_port() {
    let mut port = EnttecDmxPort::new(dongle());
    port.begin_open();
    port.device_opened(Ok(())).unwrap();
    let r = port.params_written(Err(EnttecWriteError(failure(IoErrorKind::Other, "io"))));
    assert!(matches!(r, Err(OpenError::Other(ref m)) if m == "io"));
    assert_eq!(port.state(), LinkState::Closed);
}

#[test]
fn broken_pipe_disconnects_and_closes() {
    let mut port = EnttecDmxPort::new(dongle());
    open_port(&mut port);
    let r = port.frame_written(Err(EnttecWriteError(failure(IoErrorKind::BrokenPipe, "pipe"))));
    assert!(matches!(r, Err(WriteError::Disconnected)));
    assert_eq!(port.state(), LinkState::Closed);
}

#[test]
fn other_write_failure_keeps_port_open() {
    let mut port = EnttecDmxPort::new(dongle());
    open_port(&mut port);
    let r = port.frame_written(Err(EnttecWriteError(failure(IoErrorKind::Other, "timeout"))));
    assert!(matches!(r, Err(WriteError::Other(ref m)) if m == "timeout"));
    assert!(port.is_open());
    port.close();
    assert_eq!(port.state(), LinkState::Closed);
}

#[test]
fn write_error_conversion() {
    let e: WriteError = EnttecWriteError(failure(IoErrorKind::BrokenPipe, "x")).into();
    assert!(matches!(e, WriteError::Disconnected));
    let e: WriteError = EnttecWriteError(failure(IoErrorKind::NotFound, "y")).into();
    assert!(matches!(e, WriteError::Other(ref m) if m == "y"));
}

/// The SEND_DMX message as the protocol describes it, built independently.
fn reference_dmx_message(frame: &[u8]) -> Vec<u8> {
    let mut channels: Vec<u8> = frame.iter().copied().take(512).collect();
    while channels.len() < 24 {
        channels.push(0);
    }
    let len = channels.len() + 1;
    let mut out = vec![0x7E, 6, (len & 0xFF) as u8, (len >> 8) as u8, 0];
    out.extend_from_slice(&channels);
    out.push(0xE7);
    out
}

#[test]
fn dmx_frame_matches_reference_encoder() {
    for len in 1..=512usize {
        let frame: Vec<u8> = (0..len).map(|i| (i * 7 % 256) as u8).collect();
        let mut w = vec![];
        write_dmx_frame(&frame, &mut w);
        assert_eq!(w, reference_dmx_message(&frame), "length {len}");
    }
}
