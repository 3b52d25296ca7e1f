//! The scratchpad (sensor memory image) codec.
//!
//! A scratchpad is read from the device as 9 bytes: temperature LSB and MSB
//! (bytes 0–1), the alarm-high and alarm-low trigger registers (bytes 2–3),
//! the configuration register (byte 4), reserved bytes (5–7), and a CRC8
//! over the first 8 bytes (byte 8) — so the checksum of all 9 bytes must be
//! 0.  Only the two alarm registers and the configuration register are
//! writable; [`Scratchpad::encode`] serializes exactly those 3 bytes.

use vstd::prelude::*;

use crate::CONVERSION_TIME_NS;
use crate::crc8::crc8;
use crate::error::{CrcError, Error};

verus! {

/// Configuration register bit pattern selecting 9-bit resolution.
pub const NINE: u8 = 0b0001_1111;

/// Configuration register bit pattern selecting 10-bit resolution.
pub const TEN: u8 = 0b0011_1111;

/// Configuration register bit pattern selecting 11-bit resolution.
pub const ELEVEN: u8 = 0b0101_1111;

/// Configuration register bit pattern selecting 12-bit resolution.
pub const TWELVE: u8 = 0b0111_1111;

/// Temperature resolution: 9, 10, 11 or 12 bits.
#[derive(Clone, Copy, Debug, PartialEq, Eq, Structural)]
pub enum Resolution {
    /// 9-bit, equates to a temperature resolution of 0.5°C
    Nine,
    /// 10-bit, equates to a temperature resolution of 0.25°C
    Ten,
    /// 11-bit, equates to a temperature resolution of 0.125°C
    Eleven,
    /// 12-bit, equates to a temperature resolution of 0.0625°C
    Twelve,
}

impl Default for Resolution {
    /// The device powers up configured for 12-bit conversions.
    fn default() -> (r: Self)
        ensures
            r == Resolution::Twelve,
    {
        Resolution::Twelve
    }
}

impl Resolution {
    /// The conversion latency in nanoseconds: a fraction 1/8, 1/4, 1/2 or
    /// the whole of the 12-bit maximum.
    pub open spec fn spec_conversion_time(&self) -> u32 {
        match self {
            Resolution::Nine => (CONVERSION_TIME_NS / 8) as u32,
            Resolution::Ten => (CONVERSION_TIME_NS / 4) as u32,
            Resolution::Eleven => (CONVERSION_TIME_NS / 2) as u32,
            Resolution::Twelve => CONVERSION_TIME_NS as u32,
        }
    }

    /// Conversion time (ns)
    pub fn conversion_time(&self) -> (r: u32)
        ensures
            r == self.spec_conversion_time(),
    {
        let time: u64 = match self {
            Resolution::Nine => CONVERSION_TIME_NS / 8,
            Resolution::Ten => CONVERSION_TIME_NS / 4,
            Resolution::Eleven => CONVERSION_TIME_NS / 2,
            Resolution::Twelve => CONVERSION_TIME_NS,
        };
        time as u32
    }
}

/// Configuration register
#[derive(Clone, Copy, Debug, PartialEq, Eq, Structural)]
pub struct ConfigurationRegister {
    /// The resolution the register's bit pattern selects.
    pub resolution: Resolution,
}

impl Default for ConfigurationRegister {
    /// The register of a freshly powered-up device: 12-bit resolution.
    fn default() -> (r: Self)
        ensures
            r == (ConfigurationRegister { resolution: Resolution::Twelve }),
    {
        ConfigurationRegister { resolution: Resolution::Twelve }
    }
}

/// Whether `value` is one of the exactly 4 valid register bit patterns.
pub open spec fn spec_valid_configuration(value: u8) -> bool {
    value == NINE || value == TEN || value == ELEVEN || value == TWELVE
}

/// The register a valid bit pattern decodes to.
pub open spec fn spec_configuration_of_byte(value: u8) -> ConfigurationRegister
    recommends
        spec_valid_configuration(value),
{
    if value == NINE {
        ConfigurationRegister { resolution: Resolution::Nine }
    } else if value == TEN {
        ConfigurationRegister { resolution: Resolution::Ten }
    } else if value == ELEVEN {
        ConfigurationRegister { resolution: Resolution::Eleven }
    } else {
        ConfigurationRegister { resolution: Resolution::Twelve }
    }
}

impl ConfigurationRegister {
    /// The bit pattern this register encodes to.
    pub open spec fn spec_byte(&self) -> u8 {
        match self.resolution {
            Resolution::Nine => NINE,
            Resolution::Ten => TEN,
            Resolution::Eleven => ELEVEN,
            Resolution::Twelve => TWELVE,
        }
    }

    /// Decodes a register byte, accepting exactly the four valid bit
    /// patterns and returning the offending byte in the error otherwise.
    pub fn try_from(value: u8) -> (r: Result<ConfigurationRegister, Error>)
        ensures
            r is Ok <==> spec_valid_configuration(value),
            spec_valid_configuration(value) ==> r == Ok::<ConfigurationRegister, Error>(
                spec_configuration_of_byte(value),
            ),
            !spec_valid_configuration(value) ==> r == Err::<ConfigurationRegister, Error>(
                Error::ConfigurationRegister { configuration_register: value },
            ),
    {
        match value {
            NINE => Ok(ConfigurationRegister { resolution: Resolution::Nine }),
            TEN => Ok(ConfigurationRegister { resolution: Resolution::Ten }),
            ELEVEN => Ok(ConfigurationRegister { resolution: Resolution::Eleven }),
            TWELVE => Ok(ConfigurationRegister { resolution: Resolution::Twelve }),
            configuration_register => Err(
                Error::ConfigurationRegister { configuration_register },
            ),
        }
    }
}

impl From<ConfigurationRegister> for u8 {
    /// The register's wire-format byte.
    fn from(value: ConfigurationRegister) -> (r: u8)
        ensures
            r == value.spec_byte(),
    {
        match value.resolution {
            Resolution::Nine => NINE,
            Resolution::Ten => TEN,
            Resolution::Eleven => ELEVEN,
            Resolution::Twelve => TWELVE,
        }
    }
}

impl vstd::std_specs::convert::FromSpecImpl<ConfigurationRegister> for u8 {
    open spec fn obeys_from_spec() -> bool {
        true
    }

    open spec fn from_spec(value: ConfigurationRegister) -> u8 {
        value.spec_byte()
    }
}

/// Decoding a register's own bit pattern gives the register back.
pub proof fn lemma_configuration_byte_roundtrip(register: ConfigurationRegister)
    ensures
        spec_valid_configuration(register.spec_byte()),
        spec_configuration_of_byte(register.spec_byte()) == register,
{
}

/// A signed byte as the device transmits it: two's complement.
pub open spec fn spec_i8_as_byte(value: i8) -> u8 {
    if value >= 0 {
        value as u8
    } else {
        (value + 256) as u8
    }
}

/// The signed value a transmitted byte stands for.
pub open spec fn spec_byte_as_i8(value: u8) -> i8 {
    if value < 128 {
        value as i8
    } else {
        (value - 256) as i8
    }
}

/// The signed 16-bit big-endian temperature word, in units of 1/16 °C (the
/// physical value in degrees is this divided by 16).
pub open spec fn spec_temperature(msb: u8, lsb: u8) -> int {
    if msb * 256 + lsb < 32768 {
        msb * 256 + lsb
    } else {
        msb * 256 + lsb - 65536
    }
}

/// Converts the two raw temperature bytes, most significant byte first, to
/// the temperature in units of 1/16 °C.  The formula does not depend on the
/// configured resolution: at lower resolution the low-order bits are simply
/// undefined.
pub fn temperature(msb: u8, lsb: u8) -> (r: i16)
    ensures
        r as int == spec_temperature(msb, lsb),
{
    let word: u16 = (msb as u16) * 256 + (lsb as u16);
    if word < 32768 {
        word as i16
    } else {
        ((word as i32) - 65536) as i16
    }
}

/// Scratchpad
#[derive(Clone, Copy, Debug, PartialEq, Eq, Structural)]
pub struct Scratchpad {
    /// Temperature in units of 1/16 °C, as decoded from bytes 0–1.
    pub temperature: i16,
    /// Alarm high trigger register (TH)
    pub alarm_high_trigger_register: i8,
    /// Alarm low trigger register (TL)
    pub alarm_low_trigger_register: i8,
    /// Configuration register
    pub configuration_register: ConfigurationRegister,
    /// The CRC byte the device computed over the first 8 bytes.
    pub crc: u8,
}

impl Default for Scratchpad {
    /// An all-zero image with the power-up configuration.
    fn default() -> (r: Self)
        ensures
            r == (Scratchpad {
                temperature: 0i16,
                alarm_high_trigger_register: 0i8,
                alarm_low_trigger_register: 0i8,
                configuration_register: ConfigurationRegister { resolution: Resolution::Twelve },
                crc: 0u8,
            }),
    {
        Scratchpad {
            temperature: 0,
            alarm_high_trigger_register: 0,
            alarm_low_trigger_register: 0,
            configuration_register: ConfigurationRegister { resolution: Resolution::Twelve },
            crc: 0,
        }
    }
}

/// What decoding a 9-byte image yields: the CRC of the whole image must be
/// 0, and byte 4 must be a valid configuration bit pattern.
pub open spec fn spec_decode(buffer: Seq<u8>) -> Result<Scratchpad, Error>
    recommends
        buffer.len() == 9,
{
    if crc8(buffer) != 0 {
        Err(Error::Crc(CrcError { crc: crc8(buffer) }))
    } else if !spec_valid_configuration(buffer[4]) {
        Err(Error::ConfigurationRegister { configuration_register: buffer[4] })
    } else {
        Ok(
            Scratchpad {
                temperature: spec_temperature(buffer[1], buffer[0]) as i16,
                alarm_high_trigger_register: spec_byte_as_i8(buffer[2]),
                alarm_low_trigger_register: spec_byte_as_i8(buffer[3]),
                configuration_register: spec_configuration_of_byte(buffer[4]),
                crc: buffer[8],
            },
        )
    }
}

/// The 3 writable bytes of a scratchpad, in wire order: alarm-high,
/// alarm-low, configuration register.
pub open spec fn spec_encode(scratchpad: Scratchpad) -> Seq<u8> {
    seq![
        spec_i8_as_byte(scratchpad.alarm_high_trigger_register),
        spec_i8_as_byte(scratchpad.alarm_low_trigger_register),
        scratchpad.configuration_register.spec_byte(),
    ]
}

/// Converts a signed register value to the byte the device expects.
fn i8_as_byte(value: i8) -> (r: u8)
    ensures
        r == spec_i8_as_byte(value),
{
    if value >= 0 {
        value as u8
    } else {
        ((value as i16) + 256) as u8
    }
}

/// Converts a byte read from the device to its signed register value.
fn byte_as_i8(value: u8) -> (r: i8)
    ensures
        r == spec_byte_as_i8(value),
{
    if value < 128 {
        value as i8
    } else {
        ((value as i16) - 256) as i8
    }
}

impl Scratchpad {
    /// Decodes the 9-byte image read from a device.  The whole sequence,
    /// trailing CRC byte included, is validated first; a failed validation
    /// reports the nonzero checksum, and an invalid configuration byte
    /// reports the offending byte.
    pub fn decode(buffer: &[u8]) -> (r: Result<Scratchpad, Error>)
        requires
            buffer@.len() == 9,
        ensures
            r == spec_decode(buffer@),
    {
        if let Err(e) = crate::crc8::check(buffer) {
            return Err(Error::Crc(e));
        }
        let configuration_register = match ConfigurationRegister::try_from(buffer[4]) {
            Ok(configuration_register) => configuration_register,
            Err(e) => {
                return Err(e);
            },
        };
        Ok(
            Scratchpad {
                temperature: temperature(buffer[1], buffer[0]),
                alarm_high_trigger_register: byte_as_i8(buffer[2]),
                alarm_low_trigger_register: byte_as_i8(buffer[3]),
                configuration_register,
                crc: buffer[8],
            },
        )
    }

    /// Serializes the writable fields — alarm-high, alarm-low and the
    /// configuration register — as the 3 bytes of a write-scratchpad
    /// payload.  The device recomputes the rest of the image internally.
    pub fn encode(&self) -> (r: Vec<u8>)
        ensures
            r@ == spec_encode(*self),
    {
        let mut buffer: Vec<u8> = Vec::new();
        buffer.push(i8_as_byte(self.alarm_high_trigger_register));
        buffer.push(i8_as_byte(self.alarm_low_trigger_register));
        buffer.push(u8::from(self.configuration_register));
        proof {
            assert(buffer@ =~= spec_encode(*self));
        }
        buffer
    }
}

/// Encoding a scratchpad's writable fields and decoding an image that
/// reports exactly those bytes is a fixed point: given a valid trailing
/// CRC, the decoded alarm triggers and configuration register equal the
/// ones encoded.
pub proof fn lemma_encode_decode_roundtrip(scratchpad: Scratchpad, buffer: Seq<u8>)
    requires
        buffer.len() == 9,
        crc8(buffer) == 0,
        buffer[2] == spec_encode(scratchpad)[0],
        buffer[3] == spec_encode(scratchpad)[1],
        buffer[4] == spec_encode(scratchpad)[2],
    ensures
        spec_decode(buffer) is Ok,
        spec_decode(buffer) matches Ok(decoded) ==> {
            &&& decoded.alarm_high_trigger_register == scratchpad.alarm_high_trigger_register
            &&& decoded.alarm_low_trigger_register == scratchpad.alarm_low_trigger_register
            &&& decoded.configuration_register == scratchpad.configuration_register
        },
{
    lemma_configuration_byte_roundtrip(scratchpad.configuration_register);
}

} // verus!
