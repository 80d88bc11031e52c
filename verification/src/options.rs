//! Sensor open configuration.
//!
//! An immutable configuration value built before the transport is opened:
//! how the device is selected, the 8-byte session key, and the read
//! timeout. The timeout is validated here, at configuration time, into the
//! transport's millisecond representation; the unverified layer that
//! actually opens the HID device consumes the finished options.

use vstd::prelude::*;

use crate::driver::Error;

verus! {

/// The USB vendor id of the supported sensors.
pub const VENDOR_ID: u16 = 0x04d9;

/// The USB product id of the supported sensors.
pub const PRODUCT_ID: u16 = 0xa052;

/// The default read timeout, in milliseconds.
pub const DEFAULT_TIMEOUT_MS: u128 = 5000;

/// How the device to open is selected.
#[derive(Clone, Debug)]
pub enum DevicePathType {
    /// The first device matching the fixed USB vendor and product ids.
    Id,
    /// The device with the given serial number.
    SerialNumber(String),
    /// The device at an explicit platform path, given as the bytes of the
    /// path without a trailing NUL.
    Path(Vec<u8>),
}

/// Sensor open options.
///
/// The defaults select the first device with the supported vendor and
/// product ids, an all-zero encryption key, and a five-second timeout; a
/// timeout of `None` means reads block indefinitely.
#[derive(Clone, Debug)]
pub struct OpenOptions {
    /// How the device is selected.
    pub path_type: DevicePathType,
    /// The 8-byte session encryption key.
    pub key: [u8; 8],
    /// The read timeout in milliseconds; `None` blocks indefinitely.
    pub timeout: Option<u128>,
}

impl OpenOptions {
    /// Creates a new set of options with the defaults: open by id, an
    /// all-zero key, and a five-second timeout.
    pub fn new() -> (r: Self)
        ensures
            r.path_type is Id,
            forall|i: int| 0 <= i < 8 ==> r.key@[i] == 0u8,
            r.timeout == Some(DEFAULT_TIMEOUT_MS),
    {
        OpenOptions { path_type: DevicePathType::Id, key: [0u8; 8], timeout: Some(5000) }
    }

    /// Selects the device by serial number; the other options are kept.
    pub fn with_serial_number(self, sn: String) -> (r: Self)
        ensures
            r.path_type == DevicePathType::SerialNumber(sn),
            r.key == self.key,
            r.timeout == self.timeout,
    {
        OpenOptions { path_type: DevicePathType::SerialNumber(sn), ..self }
    }

    /// Selects the device by an explicit path; the other options are kept.
    pub fn with_path(self, path: Vec<u8>) -> (r: Self)
        ensures
            r.path_type == DevicePathType::Path(path),
            r.key == self.key,
            r.timeout == self.timeout,
    {
        OpenOptions { path_type: DevicePathType::Path(path), ..self }
    }

    /// Sets the session encryption key; the other options are kept.
    pub fn with_key(self, key: [u8; 8]) -> (r: Self)
        ensures
            r.key == key,
            r.path_type == self.path_type,
            r.timeout == self.timeout,
    {
        OpenOptions { key, ..self }
    }

    /// Sets the read timeout in milliseconds, `None` meaning block
    /// indefinitely; the other options are kept.
    pub fn timeout(self, timeout: Option<u128>) -> (r: Self)
        ensures
            r.timeout == timeout,
            r.path_type == self.path_type,
            r.key == self.key,
    {
        OpenOptions { timeout, ..self }
    }

    /// Validates the configured timeout into the transport's millisecond
    /// representation: `-1` when no timeout is set, the value itself when
    /// it fits a non-negative 32-bit signed integer, and
    /// [`Error::InvalidTimeout`] otherwise.
    pub fn timeout_millis(&self) -> (r: Result<i32, Error>)
        ensures
            r == (match self.timeout {
                None => Ok::<i32, Error>(-1i32),
                Some(ms) => if ms <= i32::MAX {
                    Ok::<i32, Error>(ms as i32)
                } else {
                    Err::<i32, Error>(Error::InvalidTimeout)
                },
            }),
            r matches Ok(t) ==> t >= -1,
    {
        match self.timeout {
            None => Ok(-1),
            Some(ms) => {
                if ms <= i32::MAX as u128 {
                    Ok(ms as i32)
                } else {
                    Err(Error::InvalidTimeout)
                }
            },
        }
    }
}

impl Default for OpenOptions {
    /// The same defaults as [`OpenOptions::new`].
    fn default() -> (r: Self)
        ensures
            r.path_type is Id,
            forall|i: int| 0 <= i < 8 ==> r.key@[i] == 0u8,
            r.timeout == Some(DEFAULT_TIMEOUT_MS),
    {
        Self::new()
    }
}

/// Builds the feature report that configures the device's session key at
/// open time: a leading report-id byte of zero followed by the eight key
/// bytes.
pub fn feature_report_frame(key: &[u8; 8]) -> (frame: [u8; 9])
    ensures
        frame@[0] == 0u8,
        forall|i: int| 0 <= i < 8 ==> frame@[i + 1] == key@[i],
{
    let mut frame: [u8; 9] = [0u8; 9];
    frame[1] = key[0];
    frame[2] = key[1];
    frame[3] = key[2];
    frame[4] = key[3];
    frame[5] = key[4];
    frame[6] = key[5];
    frame[7] = key[6];
    frame[8] = key[7];
    frame
}

} // verus!
