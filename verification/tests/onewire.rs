use thermometer::FAMILY_CODE;
use thermometer::crc8;
use thermometer::error::{CrcError, Error};
use thermometer::onewire::{OWAddress, OWCommand, filter_family_codes, validate_family_code};

#[test]
fn test() {
    let address = OWAddress(0x1E_000000000000_28);
    assert_eq!(address.family_code(), 0x28);
    assert_eq!(address.crc(), 0x1E);
}

#[test]
fn address_accessors() {
    let address = OWAddress(0x4500000088204e28);
    assert_eq!(address.address(), 0x4500000088204e28);
    assert_eq!(address.family_code(), FAMILY_CODE);
    assert_eq!(address.crc(), 0x45);

    let foreign = OWAddress(0x970000006a14fe01);
    assert_eq!(foreign.family_code(), 0x01);
    assert_eq!(foreign.crc(), 0x97);
}

#[test]
fn decode_address() {
    // A read-ROM answer: family code, serial number, then the CRC of the
    // first 7 bytes.
    let mut buffer = vec![0x28, 0xBC, 0xAF, 0x6E, 0x04, 0x00, 0x00];
    let crc = crc8::calculate(&buffer);
    buffer.push(crc);
    let address = OWAddress::decode(&buffer).unwrap();
    assert_eq!(address, OWAddress(u64::from_le_bytes(buffer.try_into().unwrap())));
    assert_eq!(address.family_code(), 0x28);
    assert_eq!(address.crc(), crc);
}

#[test]
fn decode_address_crc_mismatch() {
    let mut buffer = vec![0x28, 0xBC, 0xAF, 0x6E, 0x04, 0x00, 0x00];
    buffer.push(crc8::calculate(&buffer));
    // One flipped bit must be caught, and the error must carry the exact
    // nonzero checksum of the corrupted sequence.
    buffer[1] ^= 0x10;
    let expected = crc8::calculate(&buffer);
    assert_ne!(expected, 0);
    assert_eq!(
        OWAddress::decode(&buffer),
        Err(Error::Crc(CrcError { crc: expected }))
    );
}

#[test]
fn search_mixed_family_codes() {
    let addresses = vec![
        OWAddress(0x4500000088204e28),
        OWAddress(0x970000006a14fe01),
        OWAddress(0x230000046eafbc28),
    ];
    let results = filter_family_codes(&addresses);
    assert_eq!(
        results,
        vec![
            Ok(OWAddress(0x4500000088204e28)),
            Err(Error::FamilyCode(0x01)),
            Ok(OWAddress(0x230000046eafbc28)),
        ]
    );

    assert_eq!(
        validate_family_code(OWAddress(0x970000006a14fe01)),
        Err(Error::FamilyCode(0x01))
    );
    assert_eq!(
        validate_family_code(OWAddress(0x4500000088204e28)),
        Ok(OWAddress(0x4500000088204e28))
    );
}

#[test]
fn command_codes() {
    assert_eq!(OWCommand::Search.code(), 0xF0);
    assert_eq!(OWCommand::MatchRom.code(), 0x55);
    assert_eq!(OWCommand::SkipRom.code(), 0xCC);
    assert_eq!(OWCommand::ReadRom.code(), 0x33);
    assert_eq!(OWCommand::SearchAlarm.code(), 0xEC);
    assert_eq!(OWCommand::ReadPowerSupply.code(), 0xB4);
}
