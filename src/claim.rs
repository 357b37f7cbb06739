//! The RP2040's register block, which the peripheral access crate hands out
//! at most once per process, and the parts of it that bring-up passes on to
//! the hardware drivers.
use vstd::prelude::*;

verus! {

#[verifier::external_type_specification]
#[verifier::external_body]
pub struct ExRegisterBlock(rp2040_hal::pac::Peripherals);

#[verifier::external_type_specification]
#[verifier::external_body]
pub struct ExSio(rp2040_hal::pac::SIO);

#[verifier::external_type_specification]
#[verifier::external_body]
pub struct ExIoBank0(rp2040_hal::pac::IO_BANK0);

#[verifier::external_type_specification]
#[verifier::external_body]
pub struct ExPadsBank0(rp2040_hal::pac::PADS_BANK0);

#[verifier::external_type_specification]
#[verifier::external_body]
pub struct ExI2c0(rp2040_hal::pac::I2C0);

#[verifier::external_type_specification]
#[verifier::external_body]
pub struct ExResets(rp2040_hal::pac::RESETS);

#[verifier::external_type_specification]
#[verifier::external_body]
pub struct ExTimer(rp2040_hal::pac::TIMER);

/// The register blocks that the board's drivers are built from. Each is a
/// handle that exists once per process.
pub struct BoardRegisters {
    pub sio: rp2040_hal::pac::SIO,
    pub io_bank0: rp2040_hal::pac::IO_BANK0,
    pub pads_bank0: rp2040_hal::pac::PADS_BANK0,
    pub i2c0: rp2040_hal::pac::I2C0,
    pub resets: rp2040_hal::pac::RESETS,
    pub timer: rp2040_hal::pac::TIMER,
}

/// Relies on `rp2040_pac::Peripherals` holding these blocks as public
/// fields: they are moved out, and the blocks that the board does not use
/// are dropped with the rest of the value.
#[verifier::external_body]
pub(crate) fn split_registers(regs: rp2040_hal::pac::Peripherals) -> (r: BoardRegisters) {
    BoardRegisters {
        sio: regs.SIO,
        io_bank0: regs.IO_BANK0,
        pads_bank0: regs.PADS_BANK0,
        i2c0: regs.I2C0,
        resets: regs.RESETS,
        timer: regs.TIMER,
    }
}

} // verus!
