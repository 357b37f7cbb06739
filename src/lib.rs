//! Peripheral ownership and bring-up for the Bob flight computer board.
//!
//! The board is built around an RP2040. Bring-up claims the register block
//! once, hands out every bank-0 pin to exactly one owner, builds a shared I2C
//! bus and attaches the HP203B altimeter/thermometer to it through a handle.
pub mod board;
pub mod bus;
pub mod claim;
pub mod pins;
pub mod sensor;
