use thermometer::crc8;
use thermometer::error::CrcError;

#[test]
fn calculate() {
    assert_eq!(crc8::calculate(&[99, 1, 75, 70, 127, 255, 13, 16]), 21);
    assert_eq!(crc8::calculate(&[99, 1, 75, 70, 127, 255, 13, 16, 21]), 0);

    assert_eq!(crc8::calculate(&[97, 1, 75, 70, 127, 255, 15, 16]), 2);
    assert_eq!(crc8::calculate(&[97, 1, 75, 70, 127, 255, 15, 16, 2]), 0);

    assert_eq!(crc8::calculate(&[95, 1, 75, 70, 127, 255, 1, 16]), 155);
    assert_eq!(crc8::calculate(&[95, 1, 75, 70, 127, 255, 1, 16, 155]), 0);
}

#[test]
fn check() {
    assert_eq!(
        crc8::check(&[99, 1, 75, 70, 127, 255, 13, 16]),
        Err(CrcError { crc: 21 })
    );
    assert!(crc8::check(&[99, 1, 75, 70, 127, 255, 13, 16, 21]).is_ok());

    assert_eq!(
        crc8::check(&[97, 1, 75, 70, 127, 255, 15, 16]),
        Err(CrcError { crc: 2 })
    );
    assert!(crc8::check(&[97, 1, 75, 70, 127, 255, 15, 16, 2]).is_ok());

    assert_eq!(
        crc8::check(&[95, 1, 75, 70, 127, 255, 1, 16]),
        Err(CrcError { crc: 155 })
    );
    assert!(crc8::check(&[95, 1, 75, 70, 127, 255, 1, 16, 155]).is_ok());
}

#[test]
fn appended_crc_is_zero() {
    let samples: [&[u8]; 5] = [
        &[],
        &[0x00],
        &[0x28, 0xBC, 0xAF, 0x6E, 0x04, 0x00, 0x00],
        &[99, 1, 75, 70, 127, 255, 13, 16],
        &[0xFF; 16],
    ];
    for data in samples {
        let mut with_crc = data.to_vec();
        with_crc.push(crc8::calculate(data));
        assert_eq!(crc8::calculate(&with_crc), 0);
        assert!(crc8::check(&with_crc).is_ok());
    }
}

#[test]
fn trailing_crc_unique() {
    let data = [99, 1, 75, 70, 127, 255, 13, 16];
    for trailing in 0..=255u8 {
        let mut with_crc = data.to_vec();
        with_crc.push(trailing);
        assert_eq!(crc8::check(&with_crc).is_ok(), trailing == 21);
    }
}

#[test]
fn initial_value_chains() {
    let data = [99, 1, 75, 70, 127, 255, 13, 16];
    assert_eq!(crc8::calculate_with_initial(0, &data), crc8::calculate(&data));

    let (head, tail) = data.split_at(3);
    assert_eq!(
        crc8::calculate_with_initial(crc8::calculate(head), tail),
        crc8::calculate(&data)
    );

    assert_eq!(crc8::calculate_with_initial(0x5A, &[]), 0x5A);
}
