//! A port that goes nowhere: a safe default wherever a port is needed.
use vstd::prelude::*;

use crate::{DmxPort, OpenError, Port, WriteError};

verus! {

/// A port that accepts every frame and sends nothing.
#[derive(Debug, Clone, Copy, PartialEq, Eq, Structural)]
pub struct OfflineDmxPort;

impl OfflineDmxPort {
    /// The ports of this kind: always exactly one.
    pub fn available_ports() -> (r: Vec<Port>)
        ensures
            r@.len() == 1,
            r@[0] == Port::Offline(OfflineDmxPort),
    {
        let mut ports: Vec<Port> = Vec::new();
        ports.push(Port::Offline(OfflineDmxPort));
        ports
    }

    /// Opening always succeeds.
    pub fn open(&mut self) -> (r: Result<(), OpenError>)
        ensures
            r is Ok,
    {
        Ok(())
    }

    pub fn close(&mut self) {
    }

    /// Writing always succeeds and sends nothing.
    pub fn write(&mut self, frame: &[u8]) -> (r: Result<(), WriteError>)
        ensures
            r is Ok,
    {
        Ok(())
    }

    /// The name under which the port is listed.
    pub fn name(&self) -> (r: &'static str)
        ensures
            r@ == "offline"@,
    {
        "offline"
    }
}

impl DmxPort for OfflineDmxPort {
    fn open(&mut self) -> Result<(), OpenError> {
        OfflineDmxPort::open(self)
    }

    fn close(&mut self) {
        OfflineDmxPort::close(self)
    }

    fn write(&mut self, frame: &[u8]) -> Result<(), WriteError> {
        OfflineDmxPort::write(self, frame)
    }
}

/// An offline port, to include in a port listing.
pub fn offline() -> (r: Port)
    ensures
        r == Port::Offline(OfflineDmxPort),
{
    Port::Offline(OfflineDmxPort)
}

} // verus!
