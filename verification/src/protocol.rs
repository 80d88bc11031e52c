//! The five-byte packet format of the ZyAura ZG sensor module.
//!
//! A cleartext packet carries a kind byte, a 16-bit big-endian value, an
//! additive checksum and a fixed terminator. [`decode`] validates the
//! framing and maps the kind byte to a typed reading.

use vstd::prelude::*;

verus! {

/// An error from decoding a sensor packet.
#[derive(Clone, Copy, Debug, PartialEq, Eq, Structural)]
pub enum Error {
    /// The packet did not finish with the `0x0d` terminator.
    InvalidMessage,
    /// The packet's additive checksum did not match.
    Checksum,
}

/// A single sensor reading.
///
/// The set of kinds is open-ended: sensors may emit kind bytes outside the
/// three known categories, which decode to [`SingleReading::Unknown`].
/// Consumers should match with a wildcard arm for forward compatibility.
///
/// Values are carried in the sensor's raw units: relative humidity in
/// hundredths of a percent, temperature in sixteenths of a kelvin
/// (°C = value / 16 − 273.15), CO₂ in parts per million.
#[derive(Clone, Copy, Debug, PartialEq, Eq, Structural)]
pub enum SingleReading {
    /// Relative humidity, in hundredths of a percent.
    Humidity(u16),
    /// Temperature, in sixteenths of a kelvin.
    Temperature(u16),
    /// CO₂ concentration, in ppm.
    CO2(u16),
    /// A reading of an unrecognised kind: the kind byte and the raw value,
    /// preserved verbatim.
    Unknown(u8, u16),
}

/// The 8-bit wrapping sum of the three payload bytes of a packet.
pub open spec fn checksum(data: Seq<u8>) -> u8 {
    ((data[0] + data[1] + data[2]) % 256) as u8
}

/// A packet must end with this terminator byte.
pub open spec fn terminator_ok(data: Seq<u8>) -> bool {
    data[4] == 0x0d
}

/// The packet's checksum byte matches the sum of its payload.
pub open spec fn checksum_ok(data: Seq<u8>) -> bool {
    checksum(data) == data[3]
}

/// The 16-bit value carried by a packet: byte 1 is the high byte, byte 2
/// the low byte.
pub open spec fn packet_value(data: Seq<u8>) -> u16 {
    (data[1] * 256 + data[2]) as u16
}

/// The reading a kind byte selects: `A` is humidity, `B` temperature,
/// `P` CO₂, and every other byte an unknown reading carrying the byte and
/// the value unchanged.
pub open spec fn reading_of(kind: u8, value: u16) -> SingleReading {
    if kind == 0x41 {
        SingleReading::Humidity(value)
    } else if kind == 0x42 {
        SingleReading::Temperature(value)
    } else if kind == 0x50 {
        SingleReading::CO2(value)
    } else {
        SingleReading::Unknown(kind, value)
    }
}

/// The mathematical model of [`decode`]: terminator first, checksum
/// second, then the kind byte picks the reading.
pub open spec fn decode_spec(data: Seq<u8>) -> Result<SingleReading, Error> {
    if !terminator_ok(data) {
        Err(Error::InvalidMessage)
    } else if !checksum_ok(data) {
        Err(Error::Checksum)
    } else {
        Ok(reading_of(data[0], packet_value(data)))
    }
}

/// Decodes one five-byte cleartext packet into a typed reading.
///
/// Fails with [`Error::InvalidMessage`] when byte 4 is not the terminator,
/// with [`Error::Checksum`] when byte 3 is not the wrapping sum of bytes
/// 0 to 2, and succeeds otherwise; a pure function of its input.
pub fn decode(data: [u8; 5]) -> (r: Result<SingleReading, Error>)
    ensures
        r == decode_spec(data@),
        r is Err <==> !(terminator_ok(data@) && checksum_ok(data@)),
{
    if data[4] != 0x0d {
        return Err(Error::InvalidMessage);
    }

    let sum: u8 = data[0].wrapping_add(data[1]).wrapping_add(data[2]);
    assert(sum == checksum(data@));
    if sum != data[3] {
        return Err(Error::Checksum);
    }

    let value: u16 = (data[1] as u16) * 256 + (data[2] as u16);
    let reading = match data[0] {
        0x41 => SingleReading::Humidity(value),
        0x42 => SingleReading::Temperature(value),
        0x50 => SingleReading::CO2(value),
        _ => SingleReading::Unknown(data[0], value),
    };
    Ok(reading)
}

/// An unrecognised kind byte never errors: in an otherwise valid packet,
/// any kind outside `A`, `B` and `P` decodes to `Unknown` carrying exactly
/// that byte and exactly the computed 16-bit value.
pub proof fn lemma_decode_unknown(data: Seq<u8>)
    requires
        data.len() == 5,
        terminator_ok(data),
        checksum_ok(data),
        data[0] != 0x41,
        data[0] != 0x42,
        data[0] != 0x50,
    ensures
        decode_spec(data) == Ok::<SingleReading, Error>(
            SingleReading::Unknown(data[0], packet_value(data)),
        ),
{
}

} // verus!
