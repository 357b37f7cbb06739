//! Exclusively owned pin handles, handed out by a pin bank.
use vstd::prelude::*;

verus! {

/// Number of user pins in the RP2040's bank 0 (GPIO0 to GPIO29).
pub const BANK0_PIN_COUNT: u8 = 30;

/// A handle on one physical bank-0 pin.
///
/// A `Pin` can only come out of a [`PinBank`], and one bank hands each of its
/// pins out at most once, so the pins taken from one bank are distinct. The
/// board's own pins come from the single bank that bring-up makes.
pub struct Pin {
    id: u8,
}

impl View for Pin {
    type V = nat;

    /// The GPIO number of the pin.
    closed spec fn view(&self) -> nat {
        self.id as nat
    }
}

impl Pin {
    /// The GPIO number of the pin.
    pub fn id(&self) -> (r: u8)
        ensures
            r as nat == self@,
            r < BANK0_PIN_COUNT,
    {
        proof {
            use_type_invariant(self);
        }
        self.id
    }

    #[verifier::type_invariant]
    spec fn inv(self) -> bool {
        self.id < BANK0_PIN_COUNT
    }
}

/// The bank-0 pins that have not been handed out yet.
pub struct PinBank {
    free: Vec<bool>,
}

impl PinBank {
    /// True when pin `id` exists and is still in the bank.
    pub closed spec fn is_free(&self, id: nat) -> bool {
        id < BANK0_PIN_COUNT && id < self.free@.len() && self.free@[id as int]
    }

    /// A fresh bank that holds every bank-0 pin. Pins from two banks may
    /// name the same physical pin; only one bank stands for the hardware,
    /// the one that bring-up makes after taking the register block.
    pub fn new() -> (r: PinBank)
        ensures
            forall|id: nat| r.is_free(id) <==> id < BANK0_PIN_COUNT,
    {
        let mut free: Vec<bool> = Vec::new();
        let mut i: u8 = 0;
        while i < BANK0_PIN_COUNT
            invariant
                i <= BANK0_PIN_COUNT,
                free@.len() == i,
                forall|j: int| 0 <= j < i ==> free@[j],
            decreases BANK0_PIN_COUNT - i,
        {
            free.push(true);
            i = i + 1;
        }
        PinBank { free }
    }

    /// Takes pin `id` out of the bank.
    ///
    /// Returns `None`, and leaves the bank as it was, when there is no such
    /// pin or it has already been taken.
    pub fn take(&mut self, id: u8) -> (r: Option<Pin>)
        ensures
            r is Some <==> old(self).is_free(id as nat),
            r matches Some(p) ==> p@ == id as nat,
            forall|j: nat|
                #[trigger] final(self).is_free(j) <==> (old(self).is_free(j) && j != id as nat),
    {
        if id < BANK0_PIN_COUNT && (id as usize) < self.free.len() && self.free[id as usize] {
            self.free.set(id as usize, false);
            Some(Pin { id })
        } else {
            None
        }
    }
}

} // verus!
