use co2mon::options::{feature_report_frame, DevicePathType, OpenOptions};
use co2mon::Error;

fn assert_send<T: Send>() {}

fn assert_sync<T: Sync>() {}

#[test]
fn test_defaults() {
    let options = OpenOptions::new();
    assert!(matches!(options.path_type, DevicePathType::Id));
    assert_eq!(options.key, [0; 8]);
    assert_eq!(options.timeout, Some(5000));

    let default = OpenOptions::default();
    assert!(matches!(default.path_type, DevicePathType::Id));
    assert_eq!(default.key, [0; 8]);
    assert_eq!(default.timeout, Some(5000));
}

#[test]
fn test_with_key() {
    let key = [0x62, 0xea, 0x1d, 0x4f, 0x14, 0xfa, 0xe5, 0x6c];
    let options = OpenOptions::new().with_key(key);
    assert_eq!(options.key, key);
    assert_eq!(options.timeout, Some(5000));
}

#[test]
fn test_with_serial_number() {
    let options = OpenOptions::new().with_serial_number(String::from("1.40"));
    match &options.path_type {
        DevicePathType::SerialNumber(sn) => assert_eq!(sn, "1.40"),
        _ => assert!(false),
    }
}

#[test]
fn test_with_path() {
    let options = OpenOptions::new().with_path(b"/dev/bus/usb/001/004".to_vec());
    match &options.path_type {
        DevicePathType::Path(path) => assert_eq!(path, b"/dev/bus/usb/001/004"),
        _ => assert!(false),
    }
}

#[test]
fn test_timeout_millis() {
    let options = OpenOptions::new().timeout(Some(10_000));
    assert_eq!(options.timeout_millis(), Ok(10_000));

    let unbounded = OpenOptions::new().timeout(None);
    assert_eq!(unbounded.timeout_millis(), Ok(-1));

    let largest = OpenOptions::new().timeout(Some(i32::MAX as u128));
    assert_eq!(largest.timeout_millis(), Ok(i32::MAX));

    let too_large = OpenOptions::new().timeout(Some(i32::MAX as u128 + 1));
    assert_eq!(too_large.timeout_millis(), Err(Error::InvalidTimeout));
}

#[test]
fn test_feature_report_frame() {
    let key = [1, 2, 3, 4, 5, 6, 7, 8];
    assert_eq!(
        feature_report_frame(&key),
        [0, 1, 2, 3, 4, 5, 6, 7, 8]
    );
}

#[test]
fn test_open_options_send() {
    assert_send::<OpenOptions>();
}

#[test]
fn test_open_options_sync() {
    assert_sync::<OpenOptions>();
}
