use co2mon::protocol::{decode, Error, SingleReading};

fn assert_send<T: Send>() {}

fn assert_sync<T: Sync>() {}

#[test]
fn test_decode() {
    match decode([0x50, 0x04, 0x57, 0xab, 0x0d]) {
        Ok(SingleReading::CO2(val)) => assert_eq!(val, 1111),
        _ => assert!(false),
    }

    match decode([0x41, 0x00, 0x00, 0x41, 0x0d]) {
        Ok(SingleReading::Humidity(raw)) => {
            let val = f32::from(raw) * 0.01;
            assert!((val - 0.0).abs() < 1e-4);
        }
        _ => assert!(false),
    }

    match decode([0x42, 0x12, 0x69, 0xbd, 0x0d]) {
        Ok(SingleReading::Temperature(raw)) => {
            let val = f32::from(raw) * 0.0625 - 273.15;
            assert!((val - 21.4125).abs() < 1e-4);
        }
        _ => assert!(false),
    }

    match decode([0x42, 0x12, 0x69, 0xbd, 0x00]) {
        Err(Error::InvalidMessage) => {}
        _ => assert!(false),
    }

    match decode([0x42, 0x12, 0x69, 0x00, 0x0d]) {
        Err(Error::Checksum) => {}
        _ => assert!(false),
    }
}

#[test]
fn test_decode_unknown_kind() {
    // 0x43 is not one of the known tags A, B, P: the exact kind byte and
    // the exact 16-bit value come back, and no error.
    assert_eq!(
        decode([0x43, 0x12, 0x69, 0xbe, 0x0d]),
        Ok(SingleReading::Unknown(0x43, 0x1269))
    );
    // A kind byte of zero with a zero value.
    assert_eq!(
        decode([0x00, 0x00, 0x00, 0x00, 0x0d]),
        Ok(SingleReading::Unknown(0x00, 0x0000))
    );
}

#[test]
fn test_decode_checksum_wraps() {
    // 0x50 + 0xff + 0x02 = 0x151; the checksum keeps only the low byte.
    assert_eq!(
        decode([0x50, 0xff, 0x02, 0x51, 0x0d]),
        Ok(SingleReading::CO2(0xff02))
    );
}

#[test]
fn test_decode_terminator_checked_first() {
    // Both the terminator and the checksum are wrong: the terminator
    // failure wins.
    assert_eq!(
        decode([0x50, 0x04, 0x57, 0x00, 0x00]),
        Err(Error::InvalidMessage)
    );
}

#[test]
fn test_send() {
    assert_send::<Error>();
}

#[test]
fn test_sync() {
    assert_sync::<Error>();
}
