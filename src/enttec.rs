//! The Enttec USB DMX Pro serial protocol and the lifecycle of a port that
//! speaks it.
use vstd::prelude::*;

use crate::bytes::push_all;
use crate::strings::{occurs_in, str_contains};
use crate::{IoErrorKind, IoFailure, OpenError, WriteError, MAX_UNIVERSE_SIZE};

verus! {

/// First byte of every Enttec message.
pub const START_VAL: u8 = 0x7E;

/// Last byte of every Enttec message.
pub const END_VAL: u8 = 0xE7;

/// The fewest channels the dongle accepts in one frame; shorter frames are
/// padded with zeros.
pub const MIN_UNIVERSE_SIZE: usize = 24;

/// Message label that sets the dongle's output parameters.
pub const SET_PARAMETERS: u8 = 4;

/// Message label that sends one DMX frame.
pub const SEND_DMX_PACKET: u8 = 6;

/// An Enttec message: start byte, label, little-endian payload length, the
/// payload, end byte.
pub open spec fn packet(message_type: u8, payload: Seq<u8>) -> Seq<u8> {
    seq![START_VAL, message_type, (payload.len() % 256) as u8, (payload.len() / 256 % 256) as u8]
        + payload + seq![END_VAL]
}

/// The channel values that go on the wire for `frame`: zero-padded up to the
/// minimum universe size, cut at the maximum.
pub open spec fn wire_channels(frame: Seq<u8>) -> Seq<u8> {
    if frame.len() < MIN_UNIVERSE_SIZE {
        frame + Seq::new((MIN_UNIVERSE_SIZE - frame.len()) as nat, |i: int| 0u8)
    } else if frame.len() > MAX_UNIVERSE_SIZE {
        frame.subrange(0, MAX_UNIVERSE_SIZE as int)
    } else {
        frame
    }
}

/// The SEND_DMX message for `frame`: the DMX start code 0 ahead of the channels.
pub open spec fn dmx_packet(frame: Seq<u8>) -> Seq<u8> {
    packet(SEND_DMX_PACKET, seq![0u8] + wire_channels(frame))
}

/// Append an Enttec message to `w`. With `add_payload_pad_byte` a zero byte
/// (the DMX start code) goes ahead of `payload` and is counted in the length.
pub fn write_packet(message_type: u8, payload: &[u8], add_payload_pad_byte: bool, w: &mut Vec<u8>)
    requires
        payload@.len() < usize::MAX,
    ensures
        final(w)@ == old(w)@ + packet(
            message_type,
            if add_payload_pad_byte { seq![0u8] + payload@ } else { payload@ },
        ),
{
    let payload_size: usize = payload.len() + if add_payload_pad_byte { 1usize } else { 0usize };
    let len_lsb: u8 = (payload_size % 256) as u8;
    let len_msb: u8 = (payload_size / 256 % 256) as u8;
    let ghost start = w@;
    w.push(START_VAL);
    w.push(message_type);
    w.push(len_lsb);
    w.push(len_msb);
    if add_payload_pad_byte {
        w.push(0u8);
    }
    push_all(w, payload);
    w.push(END_VAL);
    proof {
        let body = if add_payload_pad_byte { seq![0u8] + payload@ } else { payload@ };
        assert(body.len() == payload_size);
        assert(w@ == start + packet(message_type, body));
    }
}

/// The DMX frame message for `frame`, appended to `w`: frames shorter than the
/// minimum universe size are padded with zeros, longer than the maximum are cut.
pub fn write_dmx_frame(frame: &[u8], w: &mut Vec<u8>)
    ensures
        final(w)@ == old(w)@ + dmx_packet(frame@),
{
    let size = frame.len();
    if size < MIN_UNIVERSE_SIZE {
        let mut padded_frame: Vec<u8> = Vec::with_capacity(MIN_UNIVERSE_SIZE);
        push_all(&mut padded_frame, frame);
        while padded_frame.len() < MIN_UNIVERSE_SIZE
            invariant
                size <= padded_frame@.len() <= MIN_UNIVERSE_SIZE,
                padded_frame@.subrange(0, size as int) == frame@,
                forall|i: int| size <= i < padded_frame@.len() ==> padded_frame@[i] == 0u8,
            decreases MIN_UNIVERSE_SIZE - padded_frame@.len(),
        {
            padded_frame.push(0u8);
        }
        write_packet(SEND_DMX_PACKET, padded_frame.as_slice(), true, w);
        proof {
            assert(padded_frame@ == wire_channels(frame@));
        }
    } else {
        let n: usize = if size < MAX_UNIVERSE_SIZE { size } else { MAX_UNIVERSE_SIZE };
        let channels = &frame[0..n];
        write_packet(SEND_DMX_PACKET, channels, true, w);
        proof {
            assert(channels@ == wire_channels(frame@));
        }
    }
}

/// The payload of the SEND_DMX message for `frame`: the bytes between the
/// length and the end byte.
pub open spec fn dmx_payload(frame: Seq<u8>) -> Seq<u8> {
    dmx_packet(frame).subrange(4, dmx_packet(frame).len() - 1)
}

proof fn lemma_dmx_packet_parts(frame: Seq<u8>)
    ensures
        dmx_payload(frame) == seq![0u8] + wire_channels(frame),
        dmx_packet(frame).len() == wire_channels(frame).len() + 6,
{
    let body = seq![0u8] + wire_channels(frame);
    assert(dmx_packet(frame).subrange(4, dmx_packet(frame).len() - 1) =~= body);
}

/// A frame shorter than the minimum universe size goes out as the start code
/// and 24 channels: the frame's values, then zeros.
pub proof fn lemma_short_frame_padded(frame: Seq<u8>)
    requires
        frame.len() < MIN_UNIVERSE_SIZE,
    ensures
        dmx_payload(frame).len() == MIN_UNIVERSE_SIZE + 1,
        dmx_payload(frame)[0] == 0,
        forall|i: int| 0 <= i < frame.len() ==> #[trigger] dmx_payload(frame)[i + 1] == frame[i],
        forall|i: int| frame.len() < i <= MIN_UNIVERSE_SIZE ==> #[trigger] dmx_payload(frame)[i] == 0,
{
    lemma_dmx_packet_parts(frame);
}

/// A frame longer than the maximum universe size goes out as the start code
/// and its first 512 values only.
pub proof fn lemma_long_frame_truncated(frame: Seq<u8>)
    requires
        frame.len() > MAX_UNIVERSE_SIZE,
    ensures
        dmx_payload(frame) == seq![0u8] + frame.subrange(0, MAX_UNIVERSE_SIZE as int),
{
    lemma_dmx_packet_parts(frame);
}

/// Output parameters of the dongle.
#[derive(Debug, Clone, Copy, PartialEq, Eq, Structural)]
pub struct EnttecParams {
    /// DMX output break time in 10.67 microsecond units, 9 to 127.
    break_time: u8,
    /// DMX output Mark After Break time in 10.67 microsecond units, 1 to 127.
    mark_after_break_time: u8,
    /// DMX output rate in packets per second, 1 to 40, or 0 for as fast as
    /// possible.
    output_rate: u8,
}

pub open spec fn valid_break_time(t: u8) -> bool {
    9 <= t <= 127
}

pub open spec fn valid_mark_after_break_time(t: u8) -> bool {
    1 <= t <= 127
}

pub open spec fn valid_output_rate(r: u8) -> bool {
    r <= 40
}

/// The SET_PARAMETERS message for the given values: two zero user-size bytes,
/// then break time, mark after break time and output rate.
pub open spec fn params_packet(break_time: u8, mark_after_break_time: u8, output_rate: u8) -> Seq<u8> {
    packet(SET_PARAMETERS, seq![0u8, 0u8, break_time, mark_after_break_time, output_rate])
}

impl EnttecParams {
    pub closed spec fn spec_break_time(&self) -> u8 {
        self.break_time
    }

    pub closed spec fn spec_mark_after_break_time(&self) -> u8 {
        self.mark_after_break_time
    }

    pub closed spec fn spec_output_rate(&self) -> u8 {
        self.output_rate
    }

    /// Every value lies in its range.
    pub open spec fn wf(&self) -> bool {
        valid_break_time(self.spec_break_time()) && valid_mark_after_break_time(
            self.spec_mark_after_break_time(),
        ) && valid_output_rate(self.spec_output_rate())
    }

    /// This set's SET_PARAMETERS message.
    pub open spec fn spec_packet(&self) -> Seq<u8> {
        params_packet(self.spec_break_time(), self.spec_mark_after_break_time(), self.spec_output_rate())
    }

    pub fn break_time(&self) -> (r: u8)
        ensures
            r == self.spec_break_time(),
    {
        self.break_time
    }

    pub fn mark_after_break_time(&self) -> (r: u8)
        ensures
            r == self.spec_mark_after_break_time(),
    {
        self.mark_after_break_time
    }

    pub fn output_rate(&self) -> (r: u8)
        ensures
            r == self.spec_output_rate(),
    {
        self.output_rate
    }

    /// Append this set's SET_PARAMETERS message to `w`.
    pub fn write_into(&self, w: &mut Vec<u8>)
        ensures
            final(w)@ == old(w)@ + self.spec_packet(),
    {
        let payload: [u8; 5] = [
            0,  // user size, low byte
            0,  // user size, high byte
            self.break_time,
            self.mark_after_break_time,
            self.output_rate,
        ];
        write_packet(SET_PARAMETERS, payload.as_slice(), false, w);
        proof {
            assert(payload@ == seq![0u8, 0u8, self.break_time, self.mark_after_break_time, self.output_rate]);
        }
    }

    /// Set the break time; a value outside 9 to 127 is refused and the old one
    /// kept.
    pub fn set_break_time(&mut self, time: u8) -> (accepted: bool)
        ensures
            accepted == valid_break_time(time),
            final(self).spec_break_time() == (if accepted { time } else { old(self).spec_break_time() }),
            final(self).spec_mark_after_break_time() == old(self).spec_mark_after_break_time(),
            final(self).spec_output_rate() == old(self).spec_output_rate(),
    {
        if time < 9 || time > 127 {
            false
        } else {
            self.break_time = time;
            true
        }
    }

    /// Set the mark after break time; a value outside 1 to 127 is refused and
    /// the old one kept.
    pub fn set_mark_after_break_time(&mut self, time: u8) -> (accepted: bool)
        ensures
            accepted == valid_mark_after_break_time(time),
            final(self).spec_break_time() == old(self).spec_break_time(),
            final(self).spec_mark_after_break_time() == (if accepted { time } else { old(self).spec_mark_after_break_time() }),
            final(self).spec_output_rate() == old(self).spec_output_rate(),
    {
        if time < 1 || time > 127 {
            false
        } else {
            self.mark_after_break_time = time;
            true
        }
    }

    /// Set the output rate in packets per second (0 for as fast as possible);
    /// a value over 40 is refused and the old one kept.
    pub fn set_refresh_rate(&mut self, rate: u8) -> (accepted: bool)
        ensures
            accepted == valid_output_rate(rate),
            final(self).spec_break_time() == old(self).spec_break_time(),
            final(self).spec_mark_after_break_time() == old(self).spec_mark_after_break_time(),
            final(self).spec_output_rate() == (if accepted { rate } else { old(self).spec_output_rate() }),
    {
        if rate > 40 {
            false
        } else {
            self.output_rate = rate;
            true
        }
    }
}

impl Default for EnttecParams {
    /// Shortest break and mark times, fastest fixed rate.
    fn default() -> (r: Self)
        ensures
            r.spec_break_time() == 9,
            r.spec_mark_after_break_time() == 1,
            r.spec_output_rate() == 40,
    {
        EnttecParams { break_time: 9, mark_after_break_time: 1, output_rate: 40 }
    }
}

/// Identity of a USB serial device.
#[derive(Debug, Clone)]
pub struct UsbPortInfoDef {
    pub vid: u16,
    pub pid: u16,
    pub serial_number: Option<String>,
    pub manufacturer: Option<String>,
    pub product: Option<String>,
}

/// The bus a serial port sits on.
#[derive(Debug, Clone)]
pub enum SerialPortTypeDef {
    UsbPort(UsbPortInfoDef),
    PciPort,
    BluetoothPort,
    Unknown,
}

/// A serial port as the operating system lists it: its name and its bus.
#[derive(Debug, Clone)]
pub struct SerialPortInfoDef {
    pub port_name: String,
    pub port_type: SerialPortTypeDef,
}

/// Which identification rule applies to the serial ports of this system.
#[derive(Debug, Clone, Copy, PartialEq, Eq, Structural)]
pub enum Platform {
    /// USB product "DMX USB PRO" on a port whose name holds "tty".
    Unix,
    /// USB manufacturer "FTDI".
    Windows,
}

pub open spec fn is_some_text(o: Option<String>, text: Seq<char>) -> bool {
    o is Some && o->0@ == text
}

/// Whether `info` is an Enttec USB DMX Pro under the rule of `platform`.
pub open spec fn spec_is_enttec(info: SerialPortInfoDef, platform: Platform) -> bool {
    match info.port_type {
        SerialPortTypeDef::UsbPort(details) => match platform {
            Platform::Unix => is_some_text(details.product, "DMX USB PRO"@) && occurs_in(
                "tty"@,
                info.port_name@,
            ),
            Platform::Windows => is_some_text(details.manufacturer, "FTDI"@),
        },
        _ => false,
    }
}

fn text_equals(o: &Option<String>, text: &str) -> (r: bool)
    ensures
        r == is_some_text(*o, text@),
{
    match o {
        Some(s) => *s == text.to_owned(),
        None => false,
    }
}

/// Whether `info` is an Enttec USB DMX Pro under the rule of `platform`.
pub fn is_enttec(info: &SerialPortInfoDef, platform: Platform) -> (r: bool)
    ensures
        r == spec_is_enttec(*info, platform),
{
    let details = match &info.port_type {
        SerialPortTypeDef::UsbPort(details) => details,
        _ => {
            return false;
        },
    };
    match platform {
        Platform::Unix => text_equals(&details.product, "DMX USB PRO") && str_contains(
            info.port_name.as_str(),
            "tty",
        ),
        Platform::Windows => text_equals(&details.manufacturer, "FTDI"),
    }
}

/// The USB serial number of the device where there is one, else the port's
/// name.
pub open spec fn spec_display_id(info: SerialPortInfoDef) -> String {
    match info.port_type {
        SerialPortTypeDef::UsbPort(d) => match d.serial_number {
            Some(sn) => sn,
            None => info.port_name,
        },
        _ => info.port_name,
    }
}

/// Baud rate asked of the serial device; the dongle's USB bridge ignores it.
pub const BAUD_RATE: u32 = 57600;

/// Read timeout of the serial device, in milliseconds.
pub const READ_TIMEOUT_MS: u64 = 1;

/// A failed write to the serial device.
#[derive(Debug, Clone)]
pub struct EnttecWriteError(pub IoFailure);

/// A broken pipe means the dongle went away; anything else is passed on.
pub open spec fn write_error_of(e: EnttecWriteError) -> WriteError {
    if e.0.kind == IoErrorKind::BrokenPipe {
        WriteError::Disconnected
    } else {
        WriteError::Other(e.0.message)
    }
}

impl From<EnttecWriteError> for WriteError {
    /// A broken pipe means the dongle went away; anything else is passed on.
    fn from(value: EnttecWriteError) -> (r: Self) {
        if value.0.kind == IoErrorKind::BrokenPipe {
            WriteError::Disconnected
        } else {
            WriteError::Other(value.0.message)
        }
    }
}

impl vstd::std_specs::convert::FromSpecImpl<EnttecWriteError> for WriteError {
    open spec fn obeys_from_spec() -> bool {
        true
    }

    open spec fn from_spec(v: EnttecWriteError) -> Self {
        write_error_of(v)
    }
}

/// Where a port stands with its device.
#[derive(Debug, Clone, Copy, PartialEq, Eq, Structural)]
pub enum LinkState {
    /// No device handle is held.
    Closed,
    /// The device was opened and the parameters are on their way to it.
    Configuring,
    /// The device is open and configured.
    Open,
}

/// What `open` asks of the caller.
#[derive(Debug, Clone, Copy, PartialEq, Eq, Structural)]
pub enum OpenStep {
    /// The port is open already: nothing to do.
    AlreadyOpen,
    /// Open the serial device named by the port's info, at `BAUD_RATE` with a
    /// read timeout of `READ_TIMEOUT_MS`, and report with `device_opened`.
    Connect,
}

/// What `write` asks of the caller.
#[derive(Debug, Clone, PartialEq, Eq)]
pub enum WriteStep {
    /// The port is closed: open it first (see `begin_open`), then write again.
    Reopen,
    /// Send these bytes to the device and report with `frame_written`.
    Send(Vec<u8>),
}

/// An Enttec USB DMX Pro port: the device's identity, the output parameters and
/// where the port stands. The caller holds the device handle and performs each
/// step that the port asks for.
#[derive(Debug, Clone)]
pub struct EnttecDmxPort {
    params: EnttecParams,
    info: SerialPortInfoDef,
    state: LinkState,
}

impl EnttecDmxPort {
    pub closed spec fn spec_params(&self) -> EnttecParams {
        self.params
    }

    pub closed spec fn spec_info(&self) -> SerialPortInfoDef {
        self.info
    }

    pub closed spec fn spec_state(&self) -> LinkState {
        self.state
    }

    pub open spec fn wf(&self) -> bool {
        self.spec_params().wf()
    }

    /// A port for the device `info`, closed, with the default parameters.
    pub fn new(info: SerialPortInfoDef) -> (r: Self)
        ensures
            r.wf(),
            r.spec_info() == info,
            r.spec_state() == LinkState::Closed,
            r.spec_params().spec_break_time() == 9,
            r.spec_params().spec_mark_after_break_time() == 1,
            r.spec_params().spec_output_rate() == 40,
    {
        EnttecDmxPort { params: EnttecParams::default(), info, state: LinkState::Closed }
    }

    /// A closed port for the device `info` with the parameters `params`.
    pub fn with_params(info: SerialPortInfoDef, params: EnttecParams) -> (r: Self)
        ensures
            r.spec_info() == info,
            r.spec_params() == params,
            r.spec_state() == LinkState::Closed,
    {
        EnttecDmxPort { params, info, state: LinkState::Closed }
    }

    /// The device's identity and the parameters, letting go of the port.
    pub fn into_parts(self) -> (r: (SerialPortInfoDef, EnttecParams))
        ensures
            r.0 == self.spec_info(),
            r.1 == self.spec_params(),
    {
        (self.info, self.params)
    }

    /// What names the device in a listing: the USB serial number where there
    /// is one, else the port's name.
    pub fn display_id(&self) -> (r: &String)
        ensures
            *r == spec_display_id(self.spec_info()),
    {
        if let SerialPortTypeDef::UsbPort(p) = &self.info.port_type {
            if let Some(sn) = &p.serial_number {
                return sn;
            }
        }
        &self.info.port_name
    }

    pub fn info(&self) -> (r: &SerialPortInfoDef)
        ensures
            *r == self.spec_info(),
    {
        &self.info
    }

    pub fn params(&self) -> (r: EnttecParams)
        ensures
            r == self.spec_params(),
    {
        self.params
    }

    pub fn state(&self) -> (r: LinkState)
        ensures
            r == self.spec_state(),
    {
        self.state
    }

    pub fn is_open(&self) -> (r: bool)
        ensures
            r == (self.spec_state() == LinkState::Open),
    {
        self.state == LinkState::Open
    }

    /// Start opening the port. An open port stays as it is; any other goes
    /// back to closed and asks for its device to be opened.
    pub fn begin_open(&mut self) -> (r: OpenStep)
        ensures
            old(self).spec_state() == LinkState::Open ==> (r == OpenStep::AlreadyOpen && *final(self)
                == *old(self)),
            old(self).spec_state() != LinkState::Open ==> (r == OpenStep::Connect
                && final(self).spec_state() == LinkState::Closed && final(self).spec_params()
                == old(self).spec_params() && final(self).spec_info() == old(self).spec_info()),
    {
        if self.state == LinkState::Open {
            OpenStep::AlreadyOpen
        } else {
            self.state = LinkState::Closed;
            OpenStep::Connect
        }
    }

    /// The device was opened, or failed to open. On success the port waits for
    /// the returned parameters message to be written; a device that is not
    /// there gives `NotConnected`, any other failure `Other`.
    pub fn device_opened(&mut self, outcome: Result<(), IoFailure>) -> (r: Result<Vec<u8>, OpenError>)
        ensures
            final(self).spec_params() == old(self).spec_params(),
            final(self).spec_info() == old(self).spec_info(),
            match outcome {
                Ok(()) => (r matches Ok(bytes) && bytes@ == old(self).spec_params().spec_packet())
                    && final(self).spec_state() == LinkState::Configuring,
                Err(e) => final(self).spec_state() == LinkState::Closed && match r {
                    Err(OpenError::NotConnected) => e.kind == IoErrorKind::NotFound,
                    Err(OpenError::Other(m)) => e.kind != IoErrorKind::NotFound && m == e.message,
                    Ok(_) => false,
                },
            },
    {
        match outcome {
            Ok(()) => {
                self.state = LinkState::Configuring;
                let mut bytes: Vec<u8> = Vec::new();
                self.params.write_into(&mut bytes);
                Ok(bytes)
            },
            Err(e) => {
                self.state = LinkState::Closed;
                if e.kind == IoErrorKind::NotFound {
                    Err(OpenError::NotConnected)
                } else {
                    Err(OpenError::Other(e.message))
                }
            },
        }
    }

    /// The parameters message was written, or failed. On success the port is
    /// open; on failure the device is let go and the port is closed.
    pub fn params_written(&mut self, outcome: Result<(), EnttecWriteError>) -> (r: Result<(), OpenError>)
        requires
            old(self).spec_state() == LinkState::Configuring,
        ensures
            final(self).spec_params() == old(self).spec_params(),
            final(self).spec_info() == old(self).spec_info(),
            match outcome {
                Ok(()) => r is Ok && final(self).spec_state() == LinkState::Open,
                Err(e) => final(self).spec_state() == LinkState::Closed && r == Err::<(), OpenError>(
                    OpenError::Other(e.0.message),
                ),
            },
    {
        match outcome {
            Ok(()) => {
                self.state = LinkState::Open;
                Ok(())
            },
            Err(e) => {
                self.state = LinkState::Closed;
                Err(OpenError::Other(e.0.message))
            },
        }
    }

    /// Let go of the device.
    pub fn close(&mut self)
        ensures
            final(self).spec_state() == LinkState::Closed,
            final(self).spec_params() == old(self).spec_params(),
            final(self).spec_info() == old(self).spec_info(),
    {
        self.state = LinkState::Closed;
    }

    /// Start writing `frame`. A closed port asks to be reopened first; an open
    /// one hands back the frame's message.
    pub fn begin_write(&self, frame: &[u8]) -> (r: WriteStep)
        ensures
            self.spec_state() == LinkState::Open ==> (r matches WriteStep::Send(bytes) && bytes@
                == dmx_packet(frame@)),
            self.spec_state() != LinkState::Open ==> r == WriteStep::Reopen,
    {
        if self.state == LinkState::Open {
            let mut bytes: Vec<u8> = Vec::new();
            write_dmx_frame(frame, &mut bytes);
            WriteStep::Send(bytes)
        } else {
            WriteStep::Reopen
        }
    }

    /// A reopen that a write asked for failed: the write reports the port as
    /// disconnected, whatever the cause.
    pub fn reopen_failed(&self, cause: OpenError) -> (r: WriteError)
        ensures
            r == WriteError::Disconnected,
    {
        WriteError::Disconnected
    }

    /// The frame's message was written, or failed. A broken pipe closes the
    /// port and gives `Disconnected`; any other failure is passed on and the
    /// port stays open.
    pub fn frame_written(&mut self, outcome: Result<(), EnttecWriteError>) -> (r: Result<(), WriteError>)
        requires
            old(self).spec_state() == LinkState::Open,
        ensures
            final(self).spec_params() == old(self).spec_params(),
            final(self).spec_info() == old(self).spec_info(),
            match outcome {
                Ok(()) => r is Ok && final(self).spec_state() == LinkState::Open,
                Err(e) => r == Err::<(), WriteError>(write_error_of(e)) && final(self).spec_state() == (
                if e.0.kind == IoErrorKind::BrokenPipe {
                    LinkState::Closed
                } else {
                    LinkState::Open
                }),
            },
    {
        match outcome {
            Ok(()) => Ok(()),
            Err(e) => {
                let err = WriteError::from(e);
                if let WriteError::Disconnected = err {
                    self.state = LinkState::Closed;
                }
                Err(err)
            },
        }
    }

    /// Set the break time of the output, 9 to 127; another value is refused.
    /// It reaches the device at the next open.
    pub fn set_break_time(&mut self, time: u8) -> (accepted: bool)
        ensures
            old(self).wf() ==> final(self).wf(),
            accepted == valid_break_time(time),
            final(self).spec_state() == old(self).spec_state(),
            final(self).spec_info() == old(self).spec_info(),
            final(self).spec_params().spec_break_time() == (if accepted { time } else { old(self).spec_params().spec_break_time() }),
            final(self).spec_params().spec_mark_after_break_time() == old(self).spec_params().spec_mark_after_break_time(),
            final(self).spec_params().spec_output_rate() == old(self).spec_params().spec_output_rate(),
    {
        self.params.set_break_time(time)
    }

    /// Set the mark after break time of the output, 1 to 127; another value is
    /// refused. It reaches the device at the next open.
    pub fn set_mark_after_break_time(&mut self, time: u8) -> (accepted: bool)
        ensures
            old(self).wf() ==> final(self).wf(),
            accepted == valid_mark_after_break_time(time),
            final(self).spec_state() == old(self).spec_state(),
            final(self).spec_info() == old(self).spec_info(),
            final(self).spec_params().spec_break_time() == old(self).spec_params().spec_break_time(),
            final(self).spec_params().spec_mark_after_break_time() == (if accepted { time } else { old(self).spec_params().spec_mark_after_break_time() }),
            final(self).spec_params().spec_output_rate() == old(self).spec_params().spec_output_rate(),
    {
        self.params.set_mark_after_break_time(time)
    }

    /// Set the output rate in packets per second, 0 (as fast as possible) to
    /// 40; another value is refused. It reaches the device at the next open.
    pub fn set_refresh_rate(&mut self, rate: u8) -> (accepted: bool)
        ensures
            old(self).wf() ==> final(self).wf(),
            accepted == valid_output_rate(rate),
            final(self).spec_state() == old(self).spec_state(),
            final(self).spec_info() == old(self).spec_info(),
            final(self).spec_params().spec_break_time() == old(self).spec_params().spec_break_time(),
            final(self).spec_params().spec_mark_after_break_time() == old(self).spec_params().spec_mark_after_break_time(),
            final(self).spec_params().spec_output_rate() == (if accepted { rate } else { old(self).spec_params().spec_output_rate() }),
    {
        self.params.set_refresh_rate(rate)
    }
}

} // verus!
