//! The sensor driver: protocol commands, status interpretation, and the
//! exact fixed-point decode of the 6-byte measurement frame.

use crate::transport::BusTransport;
use vstd::prelude::*;

verus! {

/// The fixed 7-bit bus address of the sensor.
pub const SENSOR_ADDRESS: u8 = 0x38;

/// The single-byte initialization command.
pub open spec fn spec_init_command() -> Seq<u8> {
    seq![0x71u8]
}

/// The three-byte "trigger measurement" command.
pub open spec fn spec_measure_command() -> Seq<u8> {
    seq![0xACu8, 0x33u8, 0x00u8]
}

/// Bit 7 of the status byte is the busy/fault flag; the payload is only
/// meaningful while it is clear, that is, while the byte is below 128.
pub open spec fn status_ok(status: u8) -> bool {
    status < 128
}

/// The 20-bit humidity count packed into bytes 1, 2 and the high nibble
/// of byte 3 of a response frame.
pub open spec fn spec_raw_humidity(frame: Seq<u8>) -> int {
    (frame[1] as int) * 4096 + (frame[2] as int) * 16 + (frame[3] as int) / 16
}

/// The 20-bit temperature count packed into the low nibble of byte 3 and
/// bytes 4 and 5 of a response frame.
pub open spec fn spec_raw_temperature(frame: Seq<u8>) -> int {
    ((frame[3] as int) % 16) * 65536 + (frame[4] as int) * 256 + (frame[5] as int)
}

/// Relative humidity in percent scaled by 2^20: `raw * 100`, so that
/// dividing by the full-scale count 2^20 yields percent.
pub open spec fn spec_humidity_scaled(frame: Seq<u8>) -> int {
    spec_raw_humidity(frame) * 100
}

/// Temperature in degrees Celsius scaled by 2^20: `raw * 200 - 50 * 2^20`,
/// the device's 200-degree span with its -50 degree offset.
pub open spec fn spec_temperature_scaled(frame: Seq<u8>) -> int {
    spec_raw_temperature(frame) * 200 - 52428800
}

/// `m` is exactly what the transfer functions yield for the 6-byte
/// response frame `frame`, whose status byte reports no fault.
pub open spec fn is_decoded_from(m: Measurement, frame: Seq<u8>) -> bool {
    &&& frame.len() == 6
    &&& status_ok(frame[0])
    &&& m.humidity_scaled == spec_humidity_scaled(frame)
    &&& m.temperature_scaled == spec_temperature_scaled(frame)
}

/// Some fault-free 6-byte frame decodes exactly to `m`.
pub open spec fn some_frame_decodes_to(m: Measurement) -> bool {
    exists|frame: Seq<u8>| is_decoded_from(m, frame)
}

/// One decoded measurement.
///
/// Both fields are exact fixed-point values scaled by 2^20 (the
/// sensor's full-scale count): the relative humidity in percent is
/// `humidity_scaled / 1048576`, and the temperature in degrees Celsius
/// is `temperature_scaled / 1048576`.
#[derive(Clone, Copy, Debug, PartialEq, Eq, Structural)]
pub struct Measurement {
    /// Relative humidity in percent, scaled by 2^20. At most `100 * 2^20`.
    pub humidity_scaled: u32,
    /// Temperature in degrees Celsius, scaled by 2^20. Negative readings
    /// are possible down to `-50 * 2^20`.
    pub temperature_scaled: i32,
}

/// What can go wrong during one sensor transaction.
#[derive(Debug)]
pub enum EnvironmentSensorError<E> {
    /// The bus transaction itself failed; carries the transport's native
    /// error for diagnostics.
    I2c(E),
    /// The transaction succeeded but the device reported itself busy or
    /// faulted, so the payload is not trustworthy.
    SensorError,
}

/// The initialization command bytes: exactly the single byte `0x71`.
pub fn init_command() -> (v: Vec<u8>)
    ensures
        v@ == spec_init_command(),
{
    let mut v: Vec<u8> = Vec::new();
    v.push(0x71);
    proof {
        assert(v@ =~= spec_init_command());
    }
    v
}

/// The measurement trigger command bytes: exactly `0xAC 0x33 0x00`.
pub fn measure_command() -> (v: Vec<u8>)
    ensures
        v@ == spec_measure_command(),
{
    let mut v: Vec<u8> = Vec::new();
    v.push(0xAC);
    v.push(0x33);
    v.push(0x00);
    proof {
        assert(v@ =~= spec_measure_command());
    }
    v
}

/// Decode a 6-byte response frame.
///
/// Decoding is a pure function of the frame bytes: it returns a value
/// exactly when the status byte's busy/fault bit is clear, and the value
/// is then exactly what the device's transfer functions give.
pub fn decode_frame(frame: &Vec<u8>) -> (r: Option<Measurement>)
    requires
        frame@.len() == 6,
    ensures
        r is Some <==> status_ok(frame@[0]),
        r is Some ==> is_decoded_from(r->0, frame@),
{
    let status: u8 = frame[0];
    proof {
        assert((status & 0x80 == 0) == (status < 128)) by (bit_vector);
    }
    if (status & 0x80) != 0 {
        return None;
    }
    let raw_humidity: u32 = (frame[1] as u32) * 4096 + (frame[2] as u32) * 16 + (frame[3]
        as u32) / 16;
    let raw_temperature: u32 = ((frame[3] as u32) % 16) * 65536 + (frame[4] as u32) * 256 + (
    frame[5] as u32);
    let humidity_scaled: u32 = raw_humidity * 100;
    let temperature_scaled: i32 = (raw_temperature as i32) * 200 - 52428800;
    Some(Measurement { humidity_scaled, temperature_scaled })
}

/// The sensor driver. It exclusively owns one bus transport and keeps no
/// other state: every call is a complete, independent request/response
/// cycle.
pub struct EnvironmentSensor<T: BusTransport> {
    transport: T,
}

impl<T: BusTransport> EnvironmentSensor<T> {
    /// The transport this driver owns.
    pub closed spec fn spec_transport(self) -> T {
        self.transport
    }

    /// Wrap a transport. Performs no bus traffic.
    pub fn new(transport: T) -> (s: Self)
        ensures
            s.spec_transport() == transport,
    {
        EnvironmentSensor { transport }
    }

    /// Give the owned transport back, consuming the driver.
    pub fn release(self) -> (t: T)
        ensures
            t == self.spec_transport(),
    {
        self.transport
    }

    /// Issue the initialization command: write the single byte `0x71`
    /// and read one status byte back. The status byte is not interpreted
    /// here; only a transport-level failure is reported, so an error is
    /// always a wrapped bus error.
    pub fn init(&mut self) -> (r: Result<(), EnvironmentSensorError<T::BusFault>>)
        ensures
            r is Err ==> r->Err_0 is I2c,
    {
        let command: Vec<u8> = init_command();
        match self.transport.write_read(SENSOR_ADDRESS, &command, 1) {
            Ok(_) => Ok(()),
            Err(e) => Err(EnvironmentSensorError::I2c(e)),
        }
    }

    /// Trigger one measurement: write `0xAC 0x33 0x00`, read the 6-byte
    /// response frame, and decode it. A successful result is exactly the
    /// decode of a fault-free frame; a set busy/fault bit is reported as
    /// `SensorError`, a failed transaction as `I2c`.
    pub fn read_temperature_humidity(&mut self) -> (r: Result<
        Measurement,
        EnvironmentSensorError<T::BusFault>,
    >)
        ensures
            r matches Ok(m) ==> some_frame_decodes_to(m),
    {
        let command: Vec<u8> = measure_command();
        match self.transport.write_read(SENSOR_ADDRESS, &command, 6) {
            Err(e) => Err(EnvironmentSensorError::I2c(e)),
            Ok(frame) => match decode_frame(&frame) {
                Some(m) => {
                    proof {
                        assert(is_decoded_from(m, frame@));
                        assert(some_frame_decodes_to(m));
                    }
                    Ok(m)
                },
                None => Err(EnvironmentSensorError::SensorError),
            },
        }
    }
}

/// Two measurement attempts that receive identical response frames decode
/// to identical outcomes: the status verdict and both decoded values are
/// pure functions of the frame, and the driver carries no state between
/// calls that could make two decodes of the same bytes differ.
pub proof fn lemma_decode_idempotent(first: Seq<u8>, second: Seq<u8>)
    requires
        first.len() == 6,
        first == second,
    ensures
        status_ok(first[0]) == status_ok(second[0]),
        spec_humidity_scaled(first) == spec_humidity_scaled(second),
        spec_temperature_scaled(first) == spec_temperature_scaled(second),
{
}

/// Every decodable frame yields values inside the range of the transfer
/// functions: humidity between 0 and 100 percent and temperature between
/// -50 and +150 degrees Celsius, both scaled by 2^20. In particular the
/// 20-bit extremes 0x00000 and 0xFFFFF stay within these bounds with no
/// overflow and no clamping.
pub proof fn lemma_measurement_range(frame: Seq<u8>)
    requires
        frame.len() == 6,
    ensures
        0 <= spec_humidity_scaled(frame) <= 100 * 1048576,
        -50 * 1048576 <= spec_temperature_scaled(frame) <= 150 * 1048576,
{
    assert(0 <= (frame[3] as int) / 16 <= 15);
    assert(0 <= (frame[3] as int) % 16 <= 15);
}

} // verus!
