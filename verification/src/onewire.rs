//! The 1-Wire address model and the selection-phase command codes.
//!
//! An address is a 64-bit value laid out byte-wise as: family code (byte 0),
//! 48-bit serial number (bytes 1–6), and a CRC8 over bytes 0–6 (byte 7).
//! Validation of the family code happens at search time, not at
//! construction: the type itself carries no invariant beyond its bit layout.

use vstd::prelude::*;

use crate::FAMILY_CODE;
use crate::error::Error;

verus! {

/// Onewire Address type
#[derive(Debug, Copy, Clone, Eq, PartialEq, Structural)]
pub struct OWAddress(pub u64);

impl OWAddress {
    /// Byte 0 of the raw value: the family code.
    pub open spec fn spec_family_code(&self) -> u8 {
        (self.0 & 0xff) as u8
    }

    /// Byte 7 of the raw value: the CRC8 over bytes 0–6.
    pub open spec fn spec_crc(&self) -> u8 {
        ((self.0 >> 56) & 0xff) as u8
    }

    /// The raw 64-bit value.
    pub fn address(&self) -> (r: u64)
        ensures
            r == self.0,
    {
        self.0
    }

    /// The family code identifying the device type.
    pub fn family_code(&self) -> (r: u8)
        ensures
            r == self.spec_family_code(),
    {
        let value = self.0;
        proof {
            assert(value & 0xff < 256) by (bit_vector);
        }
        (value & 0xff) as u8
    }

    /// Interprets the 8 bytes a device transmitted in answer to the
    /// read-ROM command: the whole sequence, whose last byte is the
    /// address's own CRC, is validated first, and a failed validation
    /// reports the nonzero checksum; the bytes are then read as a
    /// little-endian 64-bit address.
    pub fn decode(buffer: &[u8]) -> (r: Result<OWAddress, Error>)
        requires
            buffer@.len() == 8,
        ensures
            crate::crc8::crc8(buffer@) == 0 ==> r == Ok::<OWAddress, Error>(
                OWAddress(vstd::bytes::spec_u64_from_le_bytes(buffer@)),
            ),
            crate::crc8::crc8(buffer@) != 0 ==> r == Err::<OWAddress, Error>(
                Error::Crc(crate::error::CrcError { crc: crate::crc8::crc8(buffer@) }),
            ),
    {
        if let Err(e) = crate::crc8::check(buffer) {
            return Err(Error::Crc(e));
        }
        let address = vstd::bytes::u64_from_le_bytes(buffer);
        Ok(OWAddress(address))
    }

    /// The address's own CRC byte.
    pub fn crc(&self) -> (r: u8)
        ensures
            r == self.spec_crc(),
    {
        let value = self.0;
        proof {
            assert((value >> 56) & 0xff < 256) by (bit_vector);
        }
        ((value >> 56) & 0xff) as u8
    }
}

/// What the search step of the driver decides about one discovered address:
/// the address itself when its family code is the expected one, and a
/// family-code error carrying the foreign code otherwise.
pub open spec fn spec_validate_family_code(address: OWAddress) -> Result<OWAddress, Error> {
    if address.spec_family_code() == FAMILY_CODE {
        Ok(address)
    } else {
        Err(Error::FamilyCode(address.spec_family_code()))
    }
}

/// Validates one discovered address's family code.
pub fn validate_family_code(address: OWAddress) -> (r: Result<OWAddress, Error>)
    ensures
        r == spec_validate_family_code(address),
{
    let family_code = address.family_code();
    if family_code == FAMILY_CODE {
        Ok(address)
    } else {
        Err(Error::FamilyCode(family_code))
    }
}

/// Validates every address a bus enumeration discovered, in order.  A
/// foreign device yields a family-code error at its own position and leaves
/// the others untouched: nothing is silently skipped.
pub fn filter_family_codes(addresses: &Vec<OWAddress>) -> (r: Vec<Result<OWAddress, Error>>)
    ensures
        r@.len() == addresses@.len(),
        forall|i: int|
            0 <= i < addresses@.len() ==> r@[i] == spec_validate_family_code(addresses@[i]),
{
    let mut results: Vec<Result<OWAddress, Error>> = Vec::new();
    let mut i: usize = 0;
    while i < addresses.len()
        invariant
            i <= addresses@.len(),
            results@.len() == i,
            forall|j: int| 0 <= j < i ==> results@[j] == spec_validate_family_code(addresses@[j]),
        decreases addresses@.len() - i,
    {
        results.push(validate_family_code(addresses[i]));
        i = i + 1;
    }
    results
}

/// Command codes of the selection phase.
#[derive(Debug, Copy, Clone, Eq, PartialEq, Hash, Structural)]
pub enum OWCommand {
    /// Obtain IDs of all devices on the bus
    Search,
    /// Address specific device
    MatchRom,
    /// Skip addressing
    SkipRom,
    /// Identification
    ReadRom,
    /// Conditional search for all devices in an alarm state.
    SearchAlarm,
    /// Ask the devices for their power supply mode.
    ReadPowerSupply,
}

impl OWCommand {
    /// The command's wire-format byte.
    pub open spec fn spec_code(&self) -> u8 {
        match self {
            OWCommand::Search => 0xF0,
            OWCommand::MatchRom => 0x55,
            OWCommand::SkipRom => 0xCC,
            OWCommand::ReadRom => 0x33,
            OWCommand::SearchAlarm => 0xEC,
            OWCommand::ReadPowerSupply => 0xB4,
        }
    }

    /// The byte written on the bus to issue this command.
    pub fn code(&self) -> (r: u8)
        ensures
            r == self.spec_code(),
    {
        match self {
            OWCommand::Search => 0xF0,
            OWCommand::MatchRom => 0x55,
            OWCommand::SkipRom => 0xCC,
            OWCommand::ReadRom => 0x33,
            OWCommand::SearchAlarm => 0xEC,
            OWCommand::ReadPowerSupply => 0xB4,
        }
    }
}

} // verus!
