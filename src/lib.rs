//! Output of DMX512 frames to a serial Enttec USB DMX Pro dongle or to Art-Net
//! nodes, behind one port lifecycle: open, write, reconnect, close.
use vstd::prelude::*;

use crate::artnet::{ArtnetDmxPort, ArtnetDmxPortParams};
use crate::enttec::{
    is_enttec, spec_is_enttec, EnttecDmxPort, EnttecParams, LinkState, Platform,
    SerialPortInfoDef,
};
use crate::offline::OfflineDmxPort;

pub mod artnet;
pub mod bytes;
pub mod enttec;
pub mod offline;
pub mod strings;

verus! {

/// The largest number of channels in one DMX universe.
pub const MAX_UNIVERSE_SIZE: usize = 512;

/// What kind of failure an operating-system call reported, as far as the port
/// lifecycle tells them apart.
#[derive(Debug, Clone, Copy, PartialEq, Eq, Structural)]
pub enum IoErrorKind {
    /// The device or file is not there.
    NotFound,
    /// The other end went away while writing.
    BrokenPipe,
    /// Any other failure.
    Other,
}

/// A failed operating-system call: its kind and a description of it.
#[derive(Debug, Clone)]
pub struct IoFailure {
    pub kind: IoErrorKind,
    pub message: String,
}

/// Why a port could not be opened.
#[derive(Debug, Clone)]
pub enum OpenError {
    /// The device is not connected.
    NotConnected,
    /// Any other failure, with its description.
    Other(String),
}

/// Why a frame could not be written.
#[derive(Debug, Clone)]
pub enum WriteError {
    /// The device is not connected, or went away.
    Disconnected,
    /// Any other failure, with its description.
    Other(String),
}

/// A DMX port: anything that can be opened, written to and closed.
/// Implementations treat a second `open` as a success that does nothing.
pub trait DmxPort {
    /// Open the port for writing.
    fn open(&mut self) -> Result<(), OpenError>;

    /// Close the port.
    fn close(&mut self);

    /// Write a DMX frame. A frame shorter than the transport's minimum
    /// universe is padded with zeros on the wire; values beyond 512 are not
    /// sent.
    fn write(&mut self, frame: &[u8]) -> Result<(), WriteError>;
}

/// A port of one of the known transports.
#[derive(Debug, Clone)]
pub enum Port {
    Offline(OfflineDmxPort),
    Enttec(EnttecDmxPort),
    Artnet(ArtnetDmxPort),
}

/// The serial ports among `infos` that are Enttec dongles, in their order.
pub open spec fn enttec_infos(infos: Seq<SerialPortInfoDef>, platform: Platform) -> Seq<SerialPortInfoDef>
    decreases infos.len(),
{
    if infos.len() == 0 {
        Seq::empty()
    } else if spec_is_enttec(infos.last(), platform) {
        enttec_infos(infos.drop_last(), platform).push(infos.last())
    } else {
        enttec_infos(infos.drop_last(), platform)
    }
}

/// `port` is a freshly made, closed Enttec port for `info`.
pub open spec fn is_new_enttec_port(port: Port, info: SerialPortInfoDef) -> bool {
    port matches Port::Enttec(p) && p.wf() && p.spec_info() == info && p.spec_state()
        == LinkState::Closed && p.spec_params().spec_break_time() == 9
        && p.spec_params().spec_mark_after_break_time() == 1 && p.spec_params().spec_output_rate()
        == 40
}

/// The listing of every port: the offline port, then a closed port for each
/// serial port that is an Enttec dongle, then the Art-Net ports.
pub open spec fn listing(
    serial: Seq<SerialPortInfoDef>,
    platform: Platform,
    artnet: Seq<ArtnetDmxPort>,
    ports: Seq<Port>,
) -> bool {
    let e = enttec_infos(serial, platform);
    &&& ports.len() == 1 + e.len() + artnet.len()
    &&& ports[0] == Port::Offline(OfflineDmxPort)
    &&& forall|i: int| 0 <= i < e.len() ==> is_new_enttec_port(#[trigger] ports[1 + i], e[i])
    &&& forall|j: int| 0 <= j < artnet.len() ==> #[trigger] ports[1 + e.len() + j] == Port::Artnet(artnet[j])
}

/// Gather every port in one listing from what each transport found: the
/// serial ports of the system (`None` where listing them failed) and the
/// Art-Net ports that discovery found (`None` where it did not run or failed).
/// A transport that found nothing takes nothing from the others.
pub fn available_ports(
    serial_ports: Option<Vec<SerialPortInfoDef>>,
    platform: Platform,
    artnet_ports: Option<Vec<ArtnetDmxPort>>,
) -> (r: Vec<Port>)
    ensures
        listing(
            match serial_ports {
                Some(v) => v@,
                None => Seq::empty(),
            },
            platform,
            match artnet_ports {
                Some(v) => v@,
                None => Seq::empty(),
            },
            r@,
        ),
{
    let mut ports = OfflineDmxPort::available_ports();
    let mut serial: Vec<SerialPortInfoDef> = match serial_ports {
        Some(v) => v,
        None => Vec::new(),
    };
    let mut artnet: Vec<ArtnetDmxPort> = match artnet_ports {
        Some(v) => v,
        None => Vec::new(),
    };
    let ghost all = serial@;
    let ghost mut i: int = 0;
    while serial.len() > 0
        invariant
            0 <= i <= all.len(),
            serial@ == all.subrange(i, all.len() as int),
            ports@.len() == 1 + enttec_infos(all.subrange(0, i), platform).len(),
            ports@[0] == Port::Offline(OfflineDmxPort),
            forall|k: int|
                0 <= k < enttec_infos(all.subrange(0, i), platform).len()
                    ==> is_new_enttec_port(#[trigger] ports@[1 + k], enttec_infos(all.subrange(0, i), platform)[k]),
        decreases serial@.len(),
    {
        let info = serial.remove(0);
        proof {
            assert(all.subrange(0, i + 1).drop_last() =~= all.subrange(0, i));
            assert(all.subrange(0, i + 1).last() == info);
        }
        if is_enttec(&info, platform) {
            ports.push(Port::Enttec(EnttecDmxPort::new(info)));
        }
        proof {
            i = i + 1;
            assert(serial@ =~= all.subrange(i, all.len() as int));
        }
    }
    proof {
        assert(all.subrange(0, i) =~= all);
    }
    let ghost e_len = ports@.len() - 1;
    let ghost art = artnet@;
    let ghost mut j: int = 0;
    while artnet.len() > 0
        invariant
            0 <= j <= art.len(),
            artnet@ == art.subrange(j, art.len() as int),
            e_len == enttec_infos(all, platform).len(),
            ports@.len() == 1 + e_len + j,
            ports@[0] == Port::Offline(OfflineDmxPort),
            forall|k: int| 0 <= k < e_len ==> is_new_enttec_port(#[trigger] ports@[1 + k], enttec_infos(all, platform)[k]),
            forall|k: int| 0 <= k < j ==> #[trigger] ports@[1 + e_len + k] == Port::Artnet(art[k]),
        decreases artnet@.len(),
    {
        let port = artnet.remove(0);
        ports.push(Port::Artnet(port));
        proof {
            j = j + 1;
            assert(artnet@ =~= art.subrange(j, art.len() as int));
        }
    }
    ports
}

/// What is kept of a port to open it again later: its kind and what identifies
/// it.
#[derive(Debug, Clone)]
pub enum PortDescriptor {
    Offline,
    /// The serial device and the output parameters.
    Enttec(SerialPortInfoDef, EnttecParams),
    /// The node output.
    Artnet(ArtnetDmxPortParams),
}

impl Port {
    /// The descriptor of this port.
    pub fn into_descriptor(self) -> (r: PortDescriptor)
        ensures
            match self {
                Port::Offline(_) => r is Offline,
                Port::Enttec(p) => r matches PortDescriptor::Enttec(info, params) && info == p.spec_info()
                    && params == p.spec_params(),
                Port::Artnet(p) => r matches PortDescriptor::Artnet(params) && params@ == p.spec_params(),
            },
    {
        match self {
            Port::Offline(_) => PortDescriptor::Offline,
            Port::Enttec(p) => {
                let (info, params) = p.into_parts();
                PortDescriptor::Enttec(info, params)
            },
            Port::Artnet(p) => PortDescriptor::Artnet(p.into_params()),
        }
    }

    /// A closed port of the kind and identity that `d` keeps.
    pub fn from_descriptor(d: PortDescriptor) -> (r: Port)
        ensures
            match d {
                PortDescriptor::Offline => r == Port::Offline(OfflineDmxPort),
                PortDescriptor::Enttec(info, params) => r matches Port::Enttec(p) && p.spec_info() == info
                    && p.spec_params() == params && p.spec_state() == LinkState::Closed,
                PortDescriptor::Artnet(params) => r matches Port::Artnet(p) && p.spec_params() == params@
                    && p.spec_send_buf() == Seq::<u8>::empty(),
            },
    {
        match d {
            PortDescriptor::Offline => Port::Offline(OfflineDmxPort),
            PortDescriptor::Enttec(info, params) => Port::Enttec(EnttecDmxPort::with_params(info, params)),
            PortDescriptor::Artnet(params) => Port::Artnet(ArtnetDmxPort::new(params)),
        }
    }

    /// The port to keep after trying to open a restored port: the port itself
    /// when it opened, else the offline port. Losing a saved device is no
    /// error when restoring.
    pub fn restored(self, opened: Result<(), OpenError>) -> (r: Port)
        ensures
            opened is Ok ==> r == self,
            opened is Err ==> r == Port::Offline(OfflineDmxPort),
    {
        match opened {
            Ok(()) => self,
            Err(_) => Port::Offline(OfflineDmxPort),
        }
    }
}

} // verus!
