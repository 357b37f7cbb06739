//! The HP203B altimeter/thermometer as the board sees it: its settings and
//! its handle on the shared bus.
use vstd::prelude::*;
use crate::bus::BusHandle;

verus! {

/// Relies on `hp203b::csb::CSBHigh`'s `CSB::ADDR`: the 7-bit bus address of
/// an HP203B whose CSB pin is held high, `0xED >> 1`.
#[verifier::external_body]
pub(crate) fn csb_high_address() -> (r: u8)
    ensures
        r == 0x76,
{
    <hp203b::csb::CSBHigh as hp203b::csb::CSB>::ADDR
}

/// Decimation rate of the sensor's internal filter, from most precise to
/// lowest power.
#[derive(Clone, Copy, Debug, PartialEq, Eq, Structural)]
pub enum Osr {
    Osr4096,
    Osr2048,
    Osr1024,
    Osr512,
    Osr256,
    Osr128,
}

/// Which quantities the sensor's ADC converts.
#[derive(Clone, Copy, Debug, PartialEq, Eq, Structural)]
pub enum Channel {
    /// Pressure (or altitude) and temperature.
    SensorPressureTemperature,
    /// Temperature alone.
    Temperature,
}

/// How the sensor answered the initialisation handshake.
#[derive(Clone, Copy, Debug, PartialEq, Eq, Structural)]
pub enum Handshake {
    /// The device took the reset and the configuration.
    Acknowledged,
    /// The device did not acknowledge its address in time.
    NotAcknowledged,
    /// The bus failed during the exchange.
    BusFault,
}

impl Handshake {
    /// Reads a failed handshake from the I2C block's abort source: bit 0
    /// set means the device did not acknowledge its 7-bit address; any
    /// other abort is a fault of the bus.
    pub fn from_abort_source(abort_source: u32) -> (r: Handshake)
        ensures
            r == (if abort_source & 1 == 1 {
                Handshake::NotAcknowledged
            } else {
                Handshake::BusFault
            }),
    {
        if abort_source & 1 == 1 {
            Handshake::NotAcknowledged
        } else {
            Handshake::BusFault
        }
    }
}

/// The altimeter/thermometer driver: its settings and its bus handle.
pub struct Altimeter {
    bus: BusHandle,
    osr: Osr,
    channel: Channel,
}

impl Altimeter {
    /// The driver's handle on the shared bus.
    pub closed spec fn spec_bus(&self) -> &BusHandle {
        &self.bus
    }

    pub closed spec fn spec_osr(&self) -> Osr {
        self.osr
    }

    pub closed spec fn spec_channel(&self) -> Channel {
        self.channel
    }

    /// A driver that talks through `bus` with the given settings.
    pub fn new(bus: BusHandle, osr: Osr, channel: Channel) -> (r: Altimeter)
        ensures
            r.spec_bus() == bus,
            r.spec_osr() == osr,
            r.spec_channel() == channel,
    {
        Altimeter { bus, osr, channel }
    }

    pub fn osr(&self) -> (r: Osr)
        ensures
            r == self.spec_osr(),
    {
        self.osr
    }

    pub fn channel(&self) -> (r: Channel)
        ensures
            r == self.spec_channel(),
    {
        self.channel
    }

    /// Bus address of the device.
    pub fn address(&self) -> (r: u8)
        ensures
            r == self.spec_bus().spec_address(),
    {
        self.bus.address()
    }

    /// The driver's handle on the shared bus.
    pub fn bus(&self) -> (r: &BusHandle)
        ensures
            r == self.spec_bus(),
    {
        &self.bus
    }
}

} // verus!
