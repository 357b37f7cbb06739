//! The shared I2C bus: one physical owner, any number of attached drivers
//! that each hold a handle, and one transaction on the wire at a time.
use vstd::prelude::*;
use crate::pins::Pin;

verus! {

/// Largest bus rate, in kHz, whose value in Hz still fits in a `u32`.
pub const MAX_RATE_KHZ: u32 = 4_294_967;

/// Relies on `fugit::HertzU32::kHz`, read back with `Rate::raw`: a rate of
/// `khz` kilohertz is `1000 * khz` ticks of one hertz. The product is
/// computed in `u32`, hence the bound.
#[verifier::external_body]
fn khz_to_hz(khz: u32) -> (r: u32)
    requires
        khz <= MAX_RATE_KHZ,
    ensures
        r == 1000 * khz,
{
    fugit::HertzU32::kHz(khz).raw()
}

/// Why the bus refused a request.
#[derive(Clone, Copy, Debug, PartialEq, Eq, Structural)]
pub enum BusError {
    /// A driver is already attached at that device address.
    AddressInUse,
    /// The handle was not issued by this bus.
    UnknownHandle,
    /// Another handle holds the bus for a transaction.
    Busy,
    /// The handle does not hold the bus.
    NotHolder,
}

/// A transaction boundary seen on the wire, by the index of the handle.
#[derive(Clone, Copy, Debug, PartialEq, Eq, Structural)]
pub enum BusEvent {
    Begin(usize),
    End(usize),
}

/// True when the transaction boundaries in `log` never interleave: every
/// transaction begins while the bus is idle, and the next boundary is the end
/// of that same transaction.
pub open spec fn serialized(log: Seq<BusEvent>) -> bool {
    forall|i: int|
        0 <= i < log.len() ==> {
            &&& i % 2 == 0 ==> #[trigger] log[i] is Begin
            &&& i % 2 == 1 ==> (log[i - 1] matches BusEvent::Begin(h) && log[i] == BusEvent::End(h))
        }
}

/// A serialized log stays serialized when the next boundary is a start on
/// an idle bus, or the end of the open transaction.
proof fn lemma_push_serialized(log: Seq<BusEvent>, e: BusEvent)
    requires
        serialized(log),
        e is Begin ==> log.len() % 2 == 0,
        e is End ==> log.len() % 2 == 1 && log.last() == BusEvent::Begin(e->End_0),
    ensures
        serialized(log.push(e)),
{
    let l = log.push(e);
    assert forall|i: int| 0 <= i < l.len() implies {
        &&& i % 2 == 0 ==> #[trigger] l[i] is Begin
        &&& i % 2 == 1 ==> (l[i - 1] matches BusEvent::Begin(x) && l[i] == BusEvent::End(x))
    } by {
        if i < log.len() {
            assert(l[i] == log[i]);
            assert(i % 2 == 1 ==> l[i - 1] == log[i - 1]);
        }
    }
}

/// A driver's access to the shared bus: an index into the bus's table of
/// attached devices, never a reference into the bus itself, so the bus can
/// move while the handle lives.
pub struct BusHandle {
    index: usize,
    address: u8,
}

impl BusHandle {
    /// Position of the device in the bus's table.
    pub closed spec fn spec_index(&self) -> nat {
        self.index as nat
    }

    /// 7-bit device address the handle talks to.
    pub closed spec fn spec_address(&self) -> u8 {
        self.address
    }

    pub fn index(&self) -> (r: usize)
        ensures
            r as nat == self.spec_index(),
    {
        self.index
    }

    pub fn address(&self) -> (r: u8)
        ensures
            r == self.spec_address(),
    {
        self.address
    }
}

/// The shared I2C bus and its transaction log.
pub struct SharedBus {
    sda: Pin,
    scl: Pin,
    rate_hz: u32,
    devices: Vec<u8>,
    holder: Option<usize>,
    log: Vec<BusEvent>,
}

impl SharedBus {
    /// Pin carrying the data line.
    pub closed spec fn spec_sda(&self) -> nat {
        self.sda@
    }

    /// Pin carrying the clock line.
    pub closed spec fn spec_scl(&self) -> nat {
        self.scl@
    }

    /// Bus clock rate in Hz.
    pub closed spec fn spec_rate_hz(&self) -> nat {
        self.rate_hz as nat
    }

    /// Addresses of the attached devices, by handle index.
    pub closed spec fn spec_devices(&self) -> Seq<u8> {
        self.devices@
    }

    /// Index of the handle whose transaction is on the wire, if any.
    pub closed spec fn spec_holder(&self) -> Option<usize> {
        self.holder
    }

    /// Every transaction boundary so far, oldest first.
    pub closed spec fn spec_log(&self) -> Seq<BusEvent> {
        self.log@
    }

    /// True when `h` was issued by this bus.
    pub open spec fn issued(&self, h: &BusHandle) -> bool {
        h.spec_index() < self.spec_devices().len() && self.spec_devices()[h.spec_index() as int]
            == h.spec_address()
    }

    /// The bus's invariant: attached addresses are distinct, the log is
    /// serialized, and the holder is the handle of the open transaction.
    pub closed spec fn wf(&self) -> bool {
        &&& self.devices@.no_duplicates()
        &&& serialized(self.log@)
        &&& match self.holder {
            Some(h) => {
                &&& self.log@.len() % 2 == 1
                &&& self.log@.last() == BusEvent::Begin(h)
                &&& h < self.devices@.len()
            },
            None => self.log@.len() % 2 == 0,
        }
    }

    /// Builds the bus on two pins at `rate_khz` kilohertz, with nothing
    /// attached and no transaction so far.
    pub fn new(sda: Pin, scl: Pin, rate_khz: u32) -> (r: SharedBus)
        requires
            rate_khz <= MAX_RATE_KHZ,
        ensures
            r.wf(),
            r.spec_sda() == sda@,
            r.spec_scl() == scl@,
            r.spec_rate_hz() == 1000 * rate_khz,
            r.spec_devices() == Seq::<u8>::empty(),
            r.spec_holder() is None,
            r.spec_log() == Seq::<BusEvent>::empty(),
    {
        let rate_hz = khz_to_hz(rate_khz);
        SharedBus { sda, scl, rate_hz, devices: Vec::new(), holder: None, log: Vec::new() }
    }

    /// Attaches a driver for the device at `address` and returns its handle.
    ///
    /// At most one driver may talk to an address: a second request for the
    /// same address is refused.
    pub fn acquire(&mut self, address: u8) -> (r: Result<BusHandle, BusError>)
        requires
            old(self).wf(),
        ensures
            final(self).wf(),
            r is Err <==> old(self).spec_devices().contains(address),
            r matches Err(e) ==> e == BusError::AddressInUse && *final(self) == *old(self),
            r matches Ok(h) ==> {
                &&& h.spec_index() == old(self).spec_devices().len()
                &&& h.spec_address() == address
                &&& final(self).spec_devices() == old(self).spec_devices().push(address)
                &&& final(self).issued(&h)
            },
            final(self).spec_sda() == old(self).spec_sda(),
            final(self).spec_scl() == old(self).spec_scl(),
            final(self).spec_rate_hz() == old(self).spec_rate_hz(),
            final(self).spec_holder() == old(self).spec_holder(),
            final(self).spec_log() == old(self).spec_log(),
    {
        let n = self.devices.len();
        let mut i: usize = 0;
        while i < n
            invariant
                *self == *old(self),
                old(self).wf(),
                n == self.devices@.len(),
                i <= n,
                forall|j: int| 0 <= j < i ==> self.devices@[j] != address,
            decreases n - i,
        {
            if self.devices[i] == address {
                return Err(BusError::AddressInUse);
            }
            i = i + 1;
        }
        self.devices.push(address);
        Ok(BusHandle { index: n, address })
    }

    /// Opens a transaction for `h`.
    ///
    /// Refused while any handle, `h` included, holds the bus: transactions
    /// from two drivers never interleave.
    pub fn begin(&mut self, h: &BusHandle) -> (r: Result<(), BusError>)
        requires
            old(self).wf(),
        ensures
            final(self).wf(),
            r == (if !old(self).issued(h) {
                Err(BusError::UnknownHandle)
            } else if old(self).spec_holder() is Some {
                Err(BusError::Busy)
            } else {
                Ok(())
            }),
            r is Err ==> *final(self) == *old(self),
            r is Ok ==> {
                &&& final(self).spec_holder() == Some(h.spec_index() as usize)
                &&& final(self).spec_log() == old(self).spec_log().push(
                    BusEvent::Begin(h.spec_index() as usize),
                )
            },
            final(self).spec_sda() == old(self).spec_sda(),
            final(self).spec_scl() == old(self).spec_scl(),
            final(self).spec_rate_hz() == old(self).spec_rate_hz(),
            final(self).spec_devices() == old(self).spec_devices(),
    {
        if !(h.index < self.devices.len() && self.devices[h.index] == h.address) {
            return Err(BusError::UnknownHandle);
        }
        if self.holder.is_some() {
            return Err(BusError::Busy);
        }
        self.holder = Some(h.index);
        proof {
            lemma_push_serialized(old(self).log@, BusEvent::Begin(h.index));
        }
        self.log.push(BusEvent::Begin(h.index));
        Ok(())
    }

    /// Closes the transaction that `h` holds.
    pub fn end(&mut self, h: &BusHandle) -> (r: Result<(), BusError>)
        requires
            old(self).wf(),
        ensures
            final(self).wf(),
            r == (if old(self).spec_holder() == Some(h.spec_index() as usize) && old(self).issued(h) {
                Ok(())
            } else {
                Err(BusError::NotHolder)
            }),
            r is Err ==> *final(self) == *old(self),
            r is Ok ==> {
                &&& final(self).spec_holder() is None
                &&& final(self).spec_log() == old(self).spec_log().push(
                    BusEvent::End(h.spec_index() as usize),
                )
            },
            final(self).spec_sda() == old(self).spec_sda(),
            final(self).spec_scl() == old(self).spec_scl(),
            final(self).spec_rate_hz() == old(self).spec_rate_hz(),
            final(self).spec_devices() == old(self).spec_devices(),
    {
        let holds = match self.holder {
            Some(x) => x == h.index,
            None => false,
        };
        if !(holds && h.index < self.devices.len() && self.devices[h.index] == h.address) {
            return Err(BusError::NotHolder);
        }
        self.holder = None;
        proof {
            lemma_push_serialized(old(self).log@, BusEvent::End(h.index));
        }
        self.log.push(BusEvent::End(h.index));
        Ok(())
    }

    /// GPIO number of the data line.
    pub fn sda_id(&self) -> (r: u8)
        ensures
            r as nat == self.spec_sda(),
    {
        self.sda.id()
    }

    /// GPIO number of the clock line.
    pub fn scl_id(&self) -> (r: u8)
        ensures
            r as nat == self.spec_scl(),
    {
        self.scl.id()
    }

    /// Bus clock rate in Hz.
    pub fn rate_hz(&self) -> (r: u32)
        ensures
            r as nat == self.spec_rate_hz(),
    {
        self.rate_hz
    }

    /// Index of the handle whose transaction is open, if any.
    pub fn holder(&self) -> (r: Option<usize>)
        ensures
            r == self.spec_holder(),
    {
        self.holder
    }

    /// Every transaction boundary so far, oldest first.
    pub fn log(&self) -> (r: &Vec<BusEvent>)
        ensures
            r@ == self.spec_log(),
    {
        &self.log
    }
}

/// On a well-formed bus the log is a row of whole transactions, one after
/// another: each even position starts a transaction of some handle, the
/// next position (if any) ends that same transaction, and only the last
/// transaction may still be open, held by the bus's holder. So no two
/// borrowers' transactions ever overlap on the wire.
pub proof fn lemma_transactions_never_interleave(bus: &SharedBus)
    requires
        bus.wf(),
    ensures
        forall|i: int|
            0 <= i < bus.spec_log().len() && i % 2 == 0 ==> {
                &&& #[trigger] bus.spec_log()[i] is Begin
                &&& i + 1 < bus.spec_log().len() ==> bus.spec_log()[i + 1] == BusEvent::End(
                    bus.spec_log()[i]->Begin_0,
                )
            },
        bus.spec_holder() matches Some(h) ==> bus.spec_log().last() == BusEvent::Begin(h),
        bus.spec_holder() is None ==> bus.spec_log().len() % 2 == 0,
{
    assert forall|i: int| 0 <= i < bus.spec_log().len() && i % 2 == 0 implies {
        &&& #[trigger] bus.spec_log()[i] is Begin
        &&& i + 1 < bus.spec_log().len() ==> bus.spec_log()[i + 1] == BusEvent::End(
            bus.spec_log()[i]->Begin_0,
        )
    } by {
        if i + 1 < bus.log@.len() {
            assert((i + 1) % 2 == 1);
            assert(bus.log@[i + 1] == BusEvent::End(bus.log@[i]->Begin_0));
        }
    }
}

} // verus!
