//! The peripheral bundle and the one-time bring-up sequence that builds it.
use vstd::prelude::*;
use crate::bus::SharedBus;
use crate::claim::{split_registers, BoardRegisters};
use crate::pins::{Pin, PinBank};
use crate::sensor::{csb_high_address, Altimeter, Channel, Handshake, Osr};

verus! {

/// Pin carrying the I2C data line.
pub const SDA_PIN: u8 = 16;

/// Pin carrying the I2C clock line.
pub const SCL_PIN: u8 = 17;

/// Pin reserved for the buzzer.
pub const BUZZER_PIN: u8 = 5;

/// I2C bus clock rate, in kHz.
pub const BUS_RATE_KHZ: u32 = 400;

/// Why bring-up stopped.
#[derive(Clone, Copy, Debug, PartialEq, Eq, Structural)]
pub enum BringUpError {
    /// The register block had already been handed out in this process.
    AlreadyClaimed,
    /// The sensor did not acknowledge the handshake.
    SensorNotAcknowledged,
    /// The bus failed during the sensor handshake.
    SensorBusFault,
}

/// The pin kept for the buzzer, which has no driver yet.
pub struct Buzzer(Pin);

impl Buzzer {
    pub closed spec fn spec_pin(&self) -> nat {
        self.0@
    }

    pub fn pin(&self) -> (r: &Pin)
        ensures
            r@ == self.spec_pin(),
    {
        &self.0
    }
}

/// Every hardware resource of the board, each with a single owner.
///
/// The bus stays inside the bundle; the altimeter reaches it through a
/// handle rather than a reference, so the bundle can move freely.
///
/// Only bring-up builds a bundle: a [`Buzzer`] has no public constructor,
/// and [`BoardPeripherals::take`] consumes the register block, which the
/// peripheral access crate hands out once per process.
pub struct BoardPeripherals {
    pub i2c: SharedBus,
    pub altimeter_thermometer: Altimeter,
    pub buzzer: Buzzer,
    pub gpio0: Pin,
    pub gpio1: Pin,
    pub gpio2: Pin,
    pub gpio3: Pin,
    pub gpio4: Pin,
    pub gpio26: Pin,
    pub gpio27: Pin,
    pub gpio28: Pin,
    pub gpio29: Pin,
}

impl BoardPeripherals {
    /// The pins that the bundle owns: the bus's data and clock lines, the
    /// buzzer, then the reserved pins in name order.
    pub open spec fn pin_ids(&self) -> Seq<nat> {
        seq![
            self.i2c.spec_sda(),
            self.i2c.spec_scl(),
            self.buzzer.spec_pin(),
            self.gpio0@,
            self.gpio1@,
            self.gpio2@,
            self.gpio3@,
            self.gpio4@,
            self.gpio26@,
            self.gpio27@,
            self.gpio28@,
            self.gpio29@,
        ]
    }

    /// A complete bundle: every pin where its name says, the bus at its
    /// rate with the altimeter as its one device, and the altimeter's
    /// handle issued by that bus.
    pub open spec fn wf(&self) -> bool {
        &&& self.pin_ids() == seq![
            SDA_PIN as nat,
            SCL_PIN as nat,
            BUZZER_PIN as nat,
            0nat,
            1nat,
            2nat,
            3nat,
            4nat,
            26nat,
            27nat,
            28nat,
            29nat,
        ]
        &&& self.i2c.wf()
        &&& self.i2c.spec_rate_hz() == 1000 * BUS_RATE_KHZ
        &&& self.i2c.spec_devices() == seq![0x76u8]
        &&& self.i2c.issued(self.altimeter_thermometer.spec_bus())
    }

    /// Takes the register block and lays out the board: every pin goes to
    /// one owner, the bus is built on its two pins at its rate, and the
    /// altimeter is attached to it with the given settings.
    ///
    /// `regs` is what `rp2040_hal::pac::Peripherals::take` returned, which
    /// is `None` once the block has been handed out; the block is consumed,
    /// so at most one layout exists per process. What comes back waits for
    /// the sensor's answer to the handshake (see [`BringUp::complete`]),
    /// together with the register blocks that the hardware drivers need.
    pub fn take(
        regs: Option<rp2040_hal::pac::Peripherals>,
        alti_osr: Osr,
        alti_ch: Channel,
    ) -> (r: Result<(BringUp, BoardRegisters), BringUpError>)
        ensures
            r is Err <==> regs is None,
            r matches Err(e) ==> e == BringUpError::AlreadyClaimed,
            r matches Ok((b, _)) ==> {
                &&& b.spec_pending().wf()
                &&& b.spec_pending().altimeter_thermometer.spec_osr() == alti_osr
                &&& b.spec_pending().altimeter_thermometer.spec_channel() == alti_ch
                &&& b.spec_pending().i2c.spec_holder() is None
                &&& b.spec_pending().i2c.spec_log().len() == 0
            },
    {
        let regs = match regs {
            Some(regs) => regs,
            None => {
                return Err(BringUpError::AlreadyClaimed);
            },
        };
        let io = split_registers(regs);
        let mut bank = PinBank::new();
        let sda = bank.take(SDA_PIN).unwrap();
        let scl = bank.take(SCL_PIN).unwrap();
        let buzzer = bank.take(BUZZER_PIN).unwrap();
        let gpio0 = bank.take(0).unwrap();
        let gpio1 = bank.take(1).unwrap();
        let gpio2 = bank.take(2).unwrap();
        let gpio3 = bank.take(3).unwrap();
        let gpio4 = bank.take(4).unwrap();
        let gpio26 = bank.take(26).unwrap();
        let gpio27 = bank.take(27).unwrap();
        let gpio28 = bank.take(28).unwrap();
        let gpio29 = bank.take(29).unwrap();
        let mut bus = SharedBus::new(sda, scl, BUS_RATE_KHZ);
        let handle = bus.acquire(csb_high_address()).unwrap();
        let altimeter_thermometer = Altimeter::new(handle, alti_osr, alti_ch);
        let pending = BoardPeripherals {
            i2c: bus,
            altimeter_thermometer,
            buzzer: Buzzer(buzzer),
            gpio0,
            gpio1,
            gpio2,
            gpio3,
            gpio4,
            gpio26,
            gpio27,
            gpio28,
            gpio29,
        };
        assert(pending.pin_ids() =~= seq![
            SDA_PIN as nat,
            SCL_PIN as nat,
            BUZZER_PIN as nat,
            0nat,
            1nat,
            2nat,
            3nat,
            4nat,
            26nat,
            27nat,
            28nat,
            29nat,
        ]);
        assert(pending.i2c.spec_devices() =~= seq![0x76u8]);
        Ok((BringUp { pending }, io))
    }
}

/// The fault that a handshake outcome reports, if any.
pub fn handshake_fault(outcome: Handshake) -> (r: Option<BringUpError>)
    ensures
        r == (match outcome {
            Handshake::Acknowledged => None,
            Handshake::NotAcknowledged => Some(BringUpError::SensorNotAcknowledged),
            Handshake::BusFault => Some(BringUpError::SensorBusFault),
        }),
{
    match outcome {
        Handshake::Acknowledged => None,
        Handshake::NotAcknowledged => Some(BringUpError::SensorNotAcknowledged),
        Handshake::BusFault => Some(BringUpError::SensorBusFault),
    }
}

/// No two pins of a complete bundle are the same physical pin.
pub proof fn lemma_pins_distinct(p: &BoardPeripherals)
    requires
        p.wf(),
    ensures
        p.pin_ids().len() == 12,
        p.pin_ids().no_duplicates(),
{
}

/// A laid-out board whose sensor has not answered the handshake yet.
pub struct BringUp {
    pending: BoardPeripherals,
}

impl BringUp {
    pub closed spec fn spec_pending(&self) -> BoardPeripherals {
        self.pending
    }

    #[verifier::type_invariant]
    spec fn inv(self) -> bool {
        self.pending.wf()
    }

    /// The altimeter that the handshake is for: its address and settings.
    pub fn altimeter(&self) -> (r: &Altimeter)
        ensures
            *r == self.spec_pending().altimeter_thermometer,
    {
        &self.pending.altimeter_thermometer
    }

    /// The bus that the handshake runs on.
    pub fn bus(&self) -> (r: &SharedBus)
        ensures
            *r == self.spec_pending().i2c,
    {
        &self.pending.i2c
    }

    /// Finishes bring-up with the sensor's answer: the whole bundle when the
    /// sensor acknowledged, else a sensor fault and no bundle at all.
    pub fn complete(self, outcome: Handshake) -> (r: Result<BoardPeripherals, BringUpError>)
        ensures
            r == (match outcome {
                Handshake::Acknowledged => Ok(self.spec_pending()),
                Handshake::NotAcknowledged => Err(BringUpError::SensorNotAcknowledged),
                Handshake::BusFault => Err(BringUpError::SensorBusFault),
            }),
            r matches Ok(p) ==> p.wf(),
    {
        proof {
            use_type_invariant(&self);
        }
        match handshake_fault(outcome) {
            None => Ok(self.pending),
            Some(e) => Err(e),
        }
    }
}

} // verus!
