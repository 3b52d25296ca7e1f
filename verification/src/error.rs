//! Error values returned by the protocol core.
//!
//! Transport failures (a reset with no presence pulse, a failed time slot)
//! belong to the bus layer and are not represented here: every function of
//! this crate is pure and reports only what it can decide from its inputs.

use vstd::prelude::*;

verus! {

/// A failed CRC8 validation, carrying the nonzero checksum that was computed
/// over the whole byte sequence (data and trailing CRC byte together).
#[derive(Clone, Copy, Debug, PartialEq, Eq, Structural)]
pub struct CrcError {
    pub crc: u8,
}

/// Everything that can go wrong while interpreting bytes exchanged with a
/// device.
#[derive(Clone, Copy, Debug, PartialEq, Eq, Structural)]
pub enum Error {
    /// No device was discovered on the bus.
    DeviceNotFound,
    /// A discovered address carries a family code other than
    /// [`crate::FAMILY_CODE`]; the offending code is attached.
    FamilyCode(u8),
    /// A scratchpad's configuration register byte is none of the four valid
    /// bit patterns; the offending byte is attached.
    ConfigurationRegister { configuration_register: u8 },
    /// A byte sequence read from the bus failed its CRC8 validation.
    Crc(CrcError),
    /// The requested operation is reserved and not yet supported.
    NotSupported,
}

} // verus!
