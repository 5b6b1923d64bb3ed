use dmx_port::artnet::{ArtnetDmxPort, ArtnetDmxPortParams};
use dmx_port::enttec::{
    EnttecDmxPort, LinkState, Platform, SerialPortInfoDef, SerialPortTypeDef, UsbPortInfoDef,
};
use dmx_port::offline::{offline, OfflineDmxPort};
use dmx_port::{available_ports, DmxPort, OpenError, Port, PortDescriptor};

fn info(name: &str, product: &str) -> SerialPortInfoDef {
    SerialPortInfoDef {
        port_name: name.to_string(),
        port_type: SerialPortTypeDef::UsbPort(UsbPortInfoDef {
            vid: 1,
            pid: 2,
            serial_number: None,
            manufacturer: None,
            product: Some(product.to_string()),
        }),
    }
}

fn artnet_port(n: u16) -> ArtnetDmxPort {
    ArtnetDmxPort::new(ArtnetDmxPortParams {
        addr: [10, 0, 0, 1],
        port_address: n,
        short_name: "s".to_string(),
        long_name: "l".to_string(),
    })
}

#[test]
fn offline_lists_exactly_one_port() {
    let ports = OfflineDmxPort::available_ports();
    assert_eq!(ports.len(), 1);
    assert!(matches!(ports[0], Port::Offline(_)));
    assert!(matches!(offline(), Port::Offline(_)));
    assert_eq!(OfflineDmxPort.name(), "offline");
}

#[test]
fn offline_port_accepts_everything() {
    let mut p = OfflineDmxPort;
    assert!(DmxPort::open(&mut p).is_ok());
    assert!(DmxPort::open(&mut p).is_ok());
    assert!(DmxPort::write(&mut p, &[1, 2, 3]).is_ok());
    assert!(DmxPort::write(&mut p, &[0u8; 600]).is_ok());
    DmxPort::close(&mut p);
}

#[test]
fn listing_without_artnet_has_offline_and_enttec_only() {
    let serial = vec![info("/dev/ttyUSB0", "DMX USB PRO"), info("/dev/ttyUSB1", "Other"), info("/dev/ttyUSB2", "DMX USB PRO")];
    let ports = available_ports(Some(serial), Platform::Unix, None);
    assert_eq!(ports.len(), 3);
    assert!(matches!(ports[0], Port::Offline(_)));
    match (&ports[1], &ports[2]) {
        (Port::Enttec(a), Port::Enttec(b)) => {
            assert_eq!(a.info().port_name, "/dev/ttyUSB0");
            assert_eq!(b.info().port_name, "/dev/ttyUSB2");
            assert_eq!(a.state(), LinkState::Closed);
        }
        _ => panic!("expected two Enttec ports"),
    }
}

#[test]
fn listing_with_failed_serial_keeps_other_transports() {
    let ports = available_ports(None, Platform::Unix, Some(vec![artnet_port(1), artnet_port(2)]));
    assert_eq!(ports.len(), 3);
    assert!(matches!(ports[0], Port::Offline(_)));
    match &ports[2] {
        Port::Artnet(p) => assert_eq!(p.params().port_address, 2),
        _ => panic!("expected an Art-Net port"),
    }
    assert_eq!(available_ports(None, Platform::Windows, None).len(), 1);
}

#[test]
fn descriptor_round_trip() {
    let mut e = EnttecDmxPort::new(info("/dev/ttyUSB0", "DMX USB PRO"));
    assert!(e.set_break_time(20));
    let d = Port::Enttec(e).into_descriptor();
    match Port::from_descriptor(d) {
        Port::Enttec(p) => {
            assert_eq!(p.params().break_time(), 20);
            assert_eq!(p.info().port_name, "/dev/ttyUSB0");
            assert!(!p.is_open());
        }
        _ => panic!("expected an Enttec port"),
    }
    let d = Port::Artnet(artnet_port(9)).into_descriptor();
    assert!(matches!(&d, PortDescriptor::Artnet(p) if p.port_address == 9));
    assert!(matches!(Port::from_descriptor(PortDescriptor::Offline), Port::Offline(_)));
}

#[test]
fn restoring_a_missing_device_falls_back_to_offline() {
    let port = Port::Enttec(EnttecDmxPort::new(info("/dev/ttyUSB0", "DMX USB PRO")));
    assert!(matches!(port.clone().restored(Err(OpenError::NotConnected)), Port::Offline(_)));
    assert!(matches!(port.restored(Ok(())), Port::Enttec(_)));
}
