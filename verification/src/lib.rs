//! Device-level protocol for the DS18B20 family of 1-Wire digital
//! temperature sensors.
//!
//! The crate covers the pure, checkable part of the protocol: the CRC8
//! checksum that guards every byte sequence exchanged with a device, the
//! 64-bit address model, the scratchpad (sensor memory image) codec, and the
//! two-phase command grammar (a selection command on a freshly reset bus,
//! then a memory command).  The bus transport itself — reset pulses, write
//! and read time slots, device enumeration — is a lower layer: the session
//! types here hand the caller the exact bytes to put on the wire, and the
//! decoding functions interpret the bytes that came back.

use vstd::prelude::*;

pub mod crc8;
pub mod error;
pub mod onewire;
pub mod scratchpad;

verus! {

/// The ds18b20 family code: byte 0 of every address of this sensor family.
pub const FAMILY_CODE: u8 = 0x28;

/// Max conversion time in nanoseconds (12-bit resolution), up to 750 ms.
pub const CONVERSION_TIME_NS: u64 = 750_000_000;

/// Memory-phase command codes.
#[allow(dead_code)]
enum Command {
    WriteScratchpad,
    ReadScratchpad,
    CopyScratchpad,
    ConvertTemperature,
    RecallE2Memory,
    ReadPowerSupply,
}

impl Command {
    /// The command's wire-format byte.
    spec fn spec_code(&self) -> u8 {
        match self {
            Command::WriteScratchpad => 0x4E,
            Command::ReadScratchpad => 0xBE,
            Command::CopyScratchpad => 0x48,
            Command::ConvertTemperature => 0x44,
            Command::RecallE2Memory => 0xB8,
            Command::ReadPowerSupply => 0xB4,
        }
    }

    /// The byte written on the bus to issue this command.
    fn code(&self) -> (r: u8)
        ensures
            r == self.spec_code(),
    {
        match self {
            Command::WriteScratchpad => 0x4E,
            Command::ReadScratchpad => 0xBE,
            Command::CopyScratchpad => 0x48,
            Command::ConvertTemperature => 0x44,
            Command::RecallE2Memory => 0xB8,
            Command::ReadPowerSupply => 0xB4,
        }
    }
}

/// The selection phase of the command grammar: the token a caller holds
/// right after resetting the bus, when only ROM (device-selection) commands
/// are valid.
///
/// Every operation consumes the token, so no command can be issued twice on
/// the same phase; the operations that select a device hand back a [`Ram`]
/// token, and [`Ram`] has no other constructor — a memory command is
/// unreachable without a selection command first.  Each operation returns
/// the exact bytes the bus layer must write to issue it.
pub struct Rom {
    _phase: (),
}

/// RAM commands: the memory phase of the command grammar, entered by a
/// selection command and consumed by its single memory command.  To issue
/// another command the caller must reset the bus and select again.
pub struct Ram {
    _phase: (),
}

/// ROM function commands
impl Rom {
    /// A selection-phase token for a freshly reset bus.  To keep the command
    /// grammar intact, call this only directly after the bus layer has
    /// issued a reset/presence cycle.
    pub fn new() -> (r: Rom) {
        Rom { _phase: () }
    }

    /// Read ROM command
    ///
    /// This command allows the bus master to read a single device's 8-bit
    /// family code, unique 48-bit serial number, and 8-bit CRC.  It can only
    /// be used if there is a single device on the bus; with more than one,
    /// all slaves answer at once and the open-drain wire produces a
    /// collision.  Returns the command byte to write; the 8 bytes read back
    /// are interpreted by [`onewire::OWAddress::decode`].  The token is
    /// consumed: this command already ends in a data transfer, not in a
    /// memory phase.
    pub fn read_rom(self) -> (r: Vec<u8>)
        ensures
            r@ == seq![0x33u8],
    {
        let mut buffer: Vec<u8> = Vec::new();
        buffer.push(onewire::OWCommand::ReadRom.code());
        proof {
            assert(buffer@ =~= seq![0x33u8]);
        }
        buffer
    }

    /// Match ROM command
    ///
    /// The match ROM command, followed by the 64-bit address in
    /// little-endian byte order, addresses one specific device on a
    /// multidrop bus: only the device whose address matches responds to the
    /// following memory command; all others wait for a reset pulse.
    /// Returns the memory-phase token and the 9 bytes to write.
    pub fn match_rom(self, address: &onewire::OWAddress) -> (r: (Ram, Vec<u8>))
        ensures
            r.1@.len() == 9,
            r.1@ == seq![0x55u8] + vstd::bytes::spec_u64_to_le_bytes(address.0),
    {
        let mut buffer: Vec<u8> = Vec::new();
        buffer.push(onewire::OWCommand::MatchRom.code());
        let mut bytes = vstd::bytes::u64_to_le_bytes(address.address());
        buffer.append(&mut bytes);
        proof {
            assert(buffer@ =~= seq![0x55u8] + vstd::bytes::spec_u64_to_le_bytes(address.0));
        }
        (Ram { _phase: () }, buffer)
    }

    /// Skip ROM command
    ///
    /// This command saves time on a single-drop bus by entering the memory
    /// phase without transmitting an address.  With more than one device on
    /// the bus a following read command collides, as every slave transmits
    /// at once.  Returns the memory-phase token and the command byte to
    /// write.
    pub fn skip_rom(self) -> (r: (Ram, Vec<u8>))
        ensures
            r.1@ == seq![0xCCu8],
    {
        let mut buffer: Vec<u8> = Vec::new();
        buffer.push(onewire::OWCommand::SkipRom.code());
        proof {
            assert(buffer@ =~= seq![0xCCu8]);
        }
        (Ram { _phase: () }, buffer)
    }

    /// Search alarm command
    ///
    /// Conditional search for the devices in an alarm state.  Reserved: not
    /// yet supported, reported as an explicit error rather than a silent
    /// no-op.
    pub fn search_alarm(self) -> (r: Result<(), error::Error>)
        ensures
            r == Err::<(), error::Error>(error::Error::NotSupported),
    {
        Err(error::Error::NotSupported)
    }
}

/// RAM commands
impl Ram {
    /// Reads the entire scratchpad including the CRC byte.
    ///
    /// Returns the command byte to write; the 9 bytes read back are
    /// validated and interpreted by [`scratchpad::Scratchpad::decode`].
    pub fn read_scratchpad(self) -> (r: Vec<u8>)
        ensures
            r@ == seq![0xBEu8],
    {
        let mut buffer: Vec<u8> = Vec::new();
        buffer.push(Command::ReadScratchpad.code());
        proof {
            assert(buffer@ =~= seq![0xBEu8]);
        }
        buffer
    }

    /// Writes TH, TL, and configuration register data into scratchpad.
    ///
    /// Returns the command byte followed by the 3 encoded writable bytes;
    /// the device recomputes the rest of its memory image internally.
    pub fn write_scratchpad(self, scratchpad: &scratchpad::Scratchpad) -> (r: Vec<u8>)
        ensures
            r@ == seq![0x4Eu8] + scratchpad::spec_encode(*scratchpad),
    {
        let mut buffer: Vec<u8> = Vec::new();
        buffer.push(Command::WriteScratchpad.code());
        let mut payload = scratchpad.encode();
        buffer.append(&mut payload);
        proof {
            assert(buffer@ =~= seq![0x4Eu8] + scratchpad::spec_encode(*scratchpad));
        }
        buffer
    }

    /// Load TH, TL, and configuration register data from the scratchpad to
    /// EEPROM.  Reserved: not yet supported.
    pub fn load_scratchpad(self) -> (r: Result<(), error::Error>)
        ensures
            r == Err::<(), error::Error>(error::Error::NotSupported),
    {
        Err(error::Error::NotSupported)
    }

    /// Save TH, TL, and configuration register data from EEPROM to the
    /// scratchpad.  Reserved: not yet supported.
    pub fn save_scratchpad(self) -> (r: Result<(), error::Error>)
        ensures
            r == Err::<(), error::Error>(error::Error::NotSupported),
    {
        Err(error::Error::NotSupported)
    }

    /// This command begins a temperature conversion; no further data is
    /// required.  The device stays busy for the conversion latency and the
    /// caller must wait before reading the result.  Returns the command
    /// byte to write and the number of nanoseconds to wait, conservatively
    /// the 12-bit maximum whatever the configured resolution — a deliberate
    /// simplification, since reading the configuration first would cost an
    /// extra bus round trip.
    pub fn convert_temperature(self) -> (r: (Vec<u8>, u64))
        ensures
            r.0@ == seq![0x44u8],
            r.1 == CONVERSION_TIME_NS,
    {
        let mut buffer: Vec<u8> = Vec::new();
        buffer.push(Command::ConvertTemperature.code());
        proof {
            assert(buffer@ =~= seq![0x44u8]);
        }
        (buffer, CONVERSION_TIME_NS)
    }

    /// Signals the mode of the device's power supply to the master.
    /// Reserved: not yet supported.
    pub fn read_power_supply(self) -> (r: Result<(), error::Error>)
        ensures
            r == Err::<(), error::Error>(error::Error::NotSupported),
    {
        Err(error::Error::NotSupported)
    }
}

} // verus!
