//! Per-frame handling and the accumulation state machine.
//!
//! One raw transport read yields up to eight bytes. [`decode_frame`] checks
//! the length, applies the cleartext shortcut of newer firmware, decrypts
//! when needed and decodes the five-byte packet. [`Accumulator`] then folds
//! successive single readings into one combined temperature/CO₂ reading,
//! bounded by a caller-configured deadline.

use vstd::prelude::*;

use crate::cipher;
use crate::protocol;
use crate::protocol::SingleReading;

verus! {

/// An error from taking a reading.
#[derive(Clone, Copy, Debug, PartialEq, Eq, Structural)]
pub enum Error {
    /// The sensor returned an invalid message.
    InvalidMessage,
    /// A checksum error.
    Checksum,
    /// The deadline elapsed before both reading kinds were observed.
    Timeout,
    /// The configured timeout does not fit the transport's millisecond
    /// representation.
    InvalidTimeout,
}

/// The driver-level error a packet decoding error maps to.
pub open spec fn lift_error(e: protocol::Error) -> Error {
    match e {
        protocol::Error::InvalidMessage => Error::InvalidMessage,
        protocol::Error::Checksum => Error::Checksum,
    }
}

impl From<protocol::Error> for Error {
    fn from(err: protocol::Error) -> (r: Self) {
        match err {
            protocol::Error::InvalidMessage => Error::InvalidMessage,
            protocol::Error::Checksum => Error::Checksum,
        }
    }
}

impl vstd::std_specs::convert::FromSpecImpl<protocol::Error> for Error {
    open spec fn obeys_from_spec() -> bool {
        true
    }

    open spec fn from_spec(e: protocol::Error) -> Self {
        lift_error(e)
    }
}

/// A combined reading: temperature and CO₂ concentration.
///
/// The temperature is kept in the sensor's raw units of sixteenths of a
/// kelvin, exactly as a `Temperature` packet carries it
/// (°C = raw / 16 − 273.15); the CO₂ concentration is in ppm.
#[derive(Clone, Copy, Debug, PartialEq, Eq, Structural)]
pub struct Reading {
    /// Temperature, in sixteenths of a kelvin.
    pub temperature: u16,
    /// CO₂ concentration, in ppm.
    pub co2: u16,
}

impl Reading {
    /// Returns the measured temperature, in sixteenths of a kelvin.
    pub fn temperature(&self) -> (t: u16)
        ensures
            t == self.temperature,
    {
        self.temperature
    }

    /// Returns the CO₂ concentration in ppm (parts per million).
    pub fn co2(&self) -> (c: u16)
        ensures
            c == self.co2,
    {
        self.co2
    }
}

/// The five-byte cleartext packet carried by one full raw frame: the raw
/// bytes themselves when the terminator is already visible at byte 4 (newer
/// firmware transmits cleartext), the decrypted bytes otherwise.
pub open spec fn frame_packet(data: Seq<u8>, key: Seq<u8>) -> Seq<u8> {
    if data[4] == 0x0d {
        data.subrange(0, 5)
    } else {
        cipher::decrypt_spec(data, key).subrange(0, 5)
    }
}

/// What handling one transport read yields: a short read is an invalid
/// message, never interpreted; a full frame is decoded from its cleartext
/// packet, with decoding errors mapped to driver-level errors.
pub open spec fn frame_reading(data: Seq<u8>, len: int, key: Seq<u8>) -> Result<
    SingleReading,
    Error,
> {
    if len != 8 {
        Err(Error::InvalidMessage)
    } else {
        match protocol::decode_spec(frame_packet(data, key)) {
            Ok(r) => Ok(r),
            Err(e) => Err(lift_error(e)),
        }
    }
}

/// Handles one raw transport read of `len` bytes: rejects a short read as
/// [`Error::InvalidMessage`], applies the cleartext shortcut on the raw
/// frame, decrypts when needed, and decodes the packet.
pub fn decode_frame(data: [u8; 8], len: usize, key: [u8; 8]) -> (r: Result<SingleReading, Error>)
    ensures
        r == frame_reading(data@, len as int, key@),
        len != 8 ==> r == Err::<SingleReading, Error>(Error::InvalidMessage),
{
    if len != 8 {
        return Err(Error::InvalidMessage);
    }

    let cleartext: [u8; 8] = if data[4] == 0x0d {
        data
    } else {
        cipher::decrypt(data, key)
    };

    let mut packet: [u8; 5] = [0u8; 5];
    packet[0] = cleartext[0];
    packet[1] = cleartext[1];
    packet[2] = cleartext[2];
    packet[3] = cleartext[3];
    packet[4] = cleartext[4];
    proof {
        assert(packet@ =~= frame_packet(data@, key@));
    }

    match protocol::decode(packet) {
        Ok(reading) => Ok(reading),
        Err(e) => Err(Error::from(e)),
    }
}

/// The two retained slots of the accumulation loop, both initially empty.
#[derive(Clone, Copy, Debug, PartialEq, Eq)]
pub struct Accumulator {
    /// The most recent temperature value observed, in sixteenths of a
    /// kelvin.
    pub temperature: Option<u16>,
    /// The most recent CO₂ value observed, in ppm.
    pub co2: Option<u16>,
}

/// How one reading updates the slots: a temperature or CO₂ reading
/// overwrites its slot, every other kind is observed and discarded.
pub open spec fn observe_spec(s: Accumulator, reading: SingleReading) -> Accumulator {
    match reading {
        SingleReading::Temperature(v) => Accumulator { temperature: Some(v), co2: s.co2 },
        SingleReading::CO2(v) => Accumulator { temperature: s.temperature, co2: Some(v) },
        _ => s,
    }
}

/// The accumulator is complete when both slots are populated.
pub open spec fn complete(s: Accumulator) -> bool {
    s.temperature is Some && s.co2 is Some
}

impl Accumulator {
    /// Creates an accumulator with both slots empty.
    pub fn new() -> (a: Self)
        ensures
            a.temperature is None,
            a.co2 is None,
    {
        Accumulator { temperature: None, co2: None }
    }

    /// Records one reading: temperature and CO₂ overwrite their slot,
    /// most recent wins; any other kind leaves the state unchanged.
    pub fn observe(&mut self, reading: SingleReading)
        ensures
            *final(self) == observe_spec(*old(self), reading),
    {
        match reading {
            SingleReading::Temperature(v) => self.temperature = Some(v),
            SingleReading::CO2(v) => self.co2 = Some(v),
            _ => (),
        }
    }

    /// Performs one turn of the accumulation loop: records `reading`,
    /// returns the combined reading once both slots are filled, and
    /// otherwise checks the elapsed wall-clock time against the budget.
    /// `Ok(None)` asks the caller to poll the transport again.
    ///
    /// `timeout_ms` is the validated transport timeout, `-1` meaning no
    /// deadline; `elapsed_ms` the milliseconds since the loop started. The
    /// deadline is checked only when the updated state is not complete, so
    /// a step that fills the second slot succeeds even past the deadline.
    pub fn step(&mut self, reading: SingleReading, elapsed_ms: u128, timeout_ms: i32) -> (r:
        Result<Option<Reading>, Error>)
        requires
            timeout_ms >= -1,
        ensures
            *final(self) == observe_spec(*old(self), reading),
            complete(*final(self)) ==> (final(self).temperature matches Some(t)
                && final(self).co2 matches Some(c) && r == Ok::<Option<Reading>, Error>(
                Some(Reading { temperature: t, co2: c }),
            )),
            !complete(*final(self)) && timeout_ms != -1 && elapsed_ms > timeout_ms ==> r
                == Err::<Option<Reading>, Error>(Error::Timeout),
            !complete(*final(self)) && (timeout_ms == -1 || elapsed_ms <= timeout_ms) ==> r
                == Ok::<Option<Reading>, Error>(None),
    {
        self.observe(reading);
        if let (Some(t), Some(c)) = (self.temperature, self.co2) {
            return Ok(Some(Reading { temperature: t, co2: c }));
        }
        if timeout_ms != -1 && elapsed_ms > (timeout_ms as u128) {
            return Err(Error::Timeout);
        }
        Ok(None)
    }
}

/// The accumulator state after observing a whole sequence of readings in
/// order, starting from empty slots.
pub open spec fn accumulated(readings: Seq<SingleReading>) -> Accumulator
    decreases readings.len(),
{
    if readings.len() == 0 {
        Accumulator { temperature: None, co2: None }
    } else {
        observe_spec(accumulated(readings.drop_last()), readings.last())
    }
}

/// Folding one more reading into an accumulated sequence is exactly one
/// observation step: the bridge between the per-step contract of
/// [`Accumulator::step`] and the sequence-level statements below.
pub proof fn lemma_accumulated_push(readings: Seq<SingleReading>, reading: SingleReading)
    ensures
        accumulated(readings.push(reading)) == observe_spec(accumulated(readings), reading),
{
    assert(readings.push(reading).drop_last() =~= readings);
}

/// The most recent temperature value in a sequence of readings, if any.
pub open spec fn last_temperature(readings: Seq<SingleReading>) -> Option<u16>
    decreases readings.len(),
{
    if readings.len() == 0 {
        None
    } else {
        match readings.last() {
            SingleReading::Temperature(v) => Some(v),
            _ => last_temperature(readings.drop_last()),
        }
    }
}

/// The most recent CO₂ value in a sequence of readings, if any.
pub open spec fn last_co2(readings: Seq<SingleReading>) -> Option<u16>
    decreases readings.len(),
{
    if readings.len() == 0 {
        None
    } else {
        match readings.last() {
            SingleReading::CO2(v) => Some(v),
            _ => last_co2(readings.drop_last()),
        }
    }
}

/// Accumulation follows last-write-wins per kind: after observing any
/// sequence of readings, each slot holds exactly the most recent value of
/// its kind, stale or not.
pub proof fn lemma_accumulated_last_wins(readings: Seq<SingleReading>)
    ensures
        accumulated(readings).temperature == last_temperature(readings),
        accumulated(readings).co2 == last_co2(readings),
    decreases readings.len(),
{
    if readings.len() > 0 {
        lemma_accumulated_last_wins(readings.drop_last());
    }
}

/// Each slot is populated exactly when the observed sequence holds at
/// least one reading of its kind.
pub proof fn lemma_slot_iff_seen(readings: Seq<SingleReading>)
    ensures
        (accumulated(readings).temperature is Some) <==> (exists|i: int|
            0 <= i < readings.len() && readings[i] is Temperature),
        (accumulated(readings).co2 is Some) <==> (exists|j: int|
            0 <= j < readings.len() && readings[j] is CO2),
    decreases readings.len(),
{
    if readings.len() > 0 {
        let prefix = readings.drop_last();
        lemma_slot_iff_seen(prefix);
        assert(forall|i: int| 0 <= i < prefix.len() ==> prefix[i] == readings[i]);
        if accumulated(prefix).temperature is Some {
            let i = choose|i: int| 0 <= i < prefix.len() && prefix[i] is Temperature;
            assert(readings[i] is Temperature);
        }
        if accumulated(prefix).co2 is Some {
            let j = choose|j: int| 0 <= j < prefix.len() && prefix[j] is CO2;
            assert(readings[j] is CO2);
        }
        if readings.last() is Temperature {
            assert(readings[readings.len() - 1] is Temperature);
        }
        if readings.last() is CO2 {
            assert(readings[readings.len() - 1] is CO2);
        }
        if exists|i: int| 0 <= i < readings.len() && readings[i] is Temperature {
            let i = choose|i: int| 0 <= i < readings.len() && readings[i] is Temperature;
            if i < readings.len() - 1 {
                assert(prefix[i] is Temperature);
            }
        }
        if exists|j: int| 0 <= j < readings.len() && readings[j] is CO2 {
            let j = choose|j: int| 0 <= j < readings.len() && readings[j] is CO2;
            if j < readings.len() - 1 {
                assert(prefix[j] is CO2);
            }
        }
    }
}

/// The accumulator completes exactly when the observed sequence holds at
/// least one temperature and at least one CO₂ reading: a combined reading
/// is never produced before both kinds have been observed, and always is
/// once they have.
pub proof fn lemma_complete_iff_both_seen(readings: Seq<SingleReading>)
    ensures
        complete(accumulated(readings)) <==> ((exists|i: int|
            0 <= i < readings.len() && readings[i] is Temperature) && (exists|j: int|
            0 <= j < readings.len() && readings[j] is CO2)),
{
    lemma_slot_iff_seen(readings);
}

} // verus!
