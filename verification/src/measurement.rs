//! Gateway-side measurements and the payload-parsing builder.

use vstd::prelude::*;

use crate::codec::{
    le16, le32, i32_of_u32, parse_readings, SENSOR_TEMP, SENSOR_HUMI, SENSOR_LUX,
};
use crate::codec::{i32_from_le_bytes, u32_from_le_bytes};
use crate::types::Address;

verus! {

/// A temperature measurement, in milli-degrees Celsius.
#[derive(Debug, Clone, PartialEq, Eq)]
pub struct Temperature(i32);

/// A humidity measurement, in milli-percent relative humidity.
#[derive(Debug, Clone, PartialEq, Eq)]
pub struct Humidity(i32);

/// An ambient light measurement, held as the IEEE-754 bit pattern of the
/// lux value.  Interpreting the bits as a floating-point number is left to
/// unverified callers.
#[derive(Debug, Clone, PartialEq, Eq)]
pub struct AmbientLight(u32);

impl View for Temperature {
    type V = i32;

    closed spec fn view(&self) -> i32 {
        self.0
    }
}

impl View for Humidity {
    type V = i32;

    closed spec fn view(&self) -> i32 {
        self.0
    }
}

impl View for AmbientLight {
    type V = u32;

    closed spec fn view(&self) -> u32 {
        self.0
    }
}

impl Temperature {
    /// Create a new `Temperature` from little endian bytes.
    pub fn from_le_bytes(raw: [u8; 4]) -> (r: Self)
        ensures
            r@ == i32_of_u32(le32(raw[0], raw[1], raw[2], raw[3])),
    {
        Self(i32_from_le_bytes(raw))
    }

    /// Return temperature in milli-degrees celsius.
    pub fn as_millidegrees_celsius(&self) -> (r: i32)
        ensures
            r == self@,
    {
        self.0
    }
}

impl Humidity {
    /// Create a new `Humidity` from little endian bytes.
    pub fn from_le_bytes(raw: [u8; 4]) -> (r: Self)
        ensures
            r@ == i32_of_u32(le32(raw[0], raw[1], raw[2], raw[3])),
    {
        Self(i32_from_le_bytes(raw))
    }

    /// Return relative humidity in 1/1000 %RH.
    pub fn as_millipercent(&self) -> (r: i32)
        ensures
            r == self@,
    {
        self.0
    }
}

impl AmbientLight {
    /// Create a new `AmbientLight` from little endian bytes.
    pub fn from_le_bytes(raw: [u8; 4]) -> (r: Self)
        ensures
            r@ == le32(raw[0], raw[1], raw[2], raw[3]),
    {
        Self(u32_from_le_bytes(raw))
    }

    /// Return the IEEE-754 bit pattern of the lux value.
    pub fn as_lux_bits(&self) -> (r: u32)
        ensures
            r == self@,
    {
        self.0
    }
}

/// The temperature value held by an optional reading.
pub open spec fn temp_view(o: Option<Temperature>) -> Option<i32> {
    match o {
        Some(t) => Some(t@),
        None => None,
    }
}

/// The humidity value held by an optional reading.
pub open spec fn humi_view(o: Option<Humidity>) -> Option<i32> {
    match o {
        Some(h) => Some(h@),
        None => None,
    }
}

/// The ambient-light bit pattern held by an optional reading.
pub open spec fn lux_view(o: Option<AmbientLight>) -> Option<u32> {
    match o {
        Some(l) => Some(l@),
        None => None,
    }
}

/// A decoded, validated measurement as handed to the telemetry sink.
#[derive(Debug)]
pub struct Measurement<'a> {
    pub address: Address,
    pub rssi: u8,
    pub local_name: &'a str,
    pub counter: u16,
    pub temperature: Option<Temperature>,
    pub humidity: Option<Humidity>,
    pub ambient_light: Option<AmbientLight>,
}

/// The mathematical content of a `Measurement`.
pub struct MeasurementModel {
    pub address: Seq<u8>,
    pub rssi: u8,
    pub local_name: Seq<char>,
    pub counter: u16,
    pub temperature: Option<i32>,
    pub humidity: Option<i32>,
    pub ambient_light: Option<u32>,
}

impl<'a> View for Measurement<'a> {
    type V = MeasurementModel;

    open spec fn view(&self) -> MeasurementModel {
        MeasurementModel {
            address: self.address.0@,
            rssi: self.rssi,
            local_name: self.local_name@,
            counter: self.counter,
            temperature: temp_view(self.temperature),
            humidity: humi_view(self.humidity),
            ambient_light: lux_view(self.ambient_light),
        }
    }
}

/// The mathematical state of a `MeasurementBuilder`.
pub struct BuilderModel {
    pub address: Seq<u8>,
    pub rssi: u8,
    pub local_name: Option<Seq<char>>,
    pub counter: Option<u16>,
    pub temperature: Option<i32>,
    pub humidity: Option<i32>,
    pub ambient_light: Option<u32>,
    pub parse_error: bool,
}

/// The builder state after parsing a payload: the first two bytes set the
/// counter, the remaining (tag, value) pairs set readings.  A payload too
/// short to hold the counter, or a recognized tag with fewer than four bytes
/// after it, marks a parse error; everything parsed up to that point is
/// kept.
pub open spec fn parse_payload_spec(b: BuilderModel, payload: Seq<u8>) -> BuilderModel {
    if payload.len() < 2 {
        BuilderModel { parse_error: true, ..b }
    } else {
        let r = parse_readings(b.temperature, b.humidity, b.ambient_light, payload.skip(2));
        BuilderModel {
            counter: Some(le16(payload[0], payload[1])),
            temperature: r.0,
            humidity: r.1,
            ambient_light: r.2,
            parse_error: b.parse_error || !r.3,
            ..b
        }
    }
}

/// Whether parsing a payload succeeds: it holds at least the counter, and
/// no recognized tag is cut short.
pub open spec fn parse_ok_spec(b: BuilderModel, payload: Seq<u8>) -> bool {
    payload.len() >= 2 && parse_readings(
        b.temperature,
        b.humidity,
        b.ambient_light,
        payload.skip(2),
    ).3
}

/// Law: a payload encoded from a counter and any subset of readings decodes
/// in a builder that holds no readings yet to exactly that counter and that
/// subset, bit for bit, without a parse error.
pub proof fn lemma_decode_encode_round_trip(
    b: BuilderModel,
    counter: u16,
    temperature: Option<i32>,
    humidity: Option<i32>,
    ambient_light: Option<u32>,
)
    requires
        b.temperature is None,
        b.humidity is None,
        b.ambient_light is None,
        !b.parse_error,
    ensures
        ({
            let after = parse_payload_spec(
                b,
                crate::codec::encode_spec(counter, temperature, humidity, ambient_light),
            );
            &&& after == (BuilderModel {
                counter: Some(counter),
                temperature: temperature,
                humidity: humidity,
                ambient_light: ambient_light,
                ..b
            })
            &&& parse_ok_spec(b, crate::codec::encode_spec(counter, temperature, humidity, ambient_light))
        }),
{
    crate::codec::lemma_round_trip(counter, temperature, humidity, ambient_light);
}

/// Whether a builder state yields a measurement: no parse error, and the
/// mandatory local name and counter are present.
pub open spec fn builds(b: BuilderModel) -> bool {
    !b.parse_error && b.local_name is Some && b.counter is Some
}

/// The measurement a successful build yields.
pub open spec fn built_measurement(b: BuilderModel) -> MeasurementModel
    recommends
        builds(b),
{
    MeasurementModel {
        address: b.address,
        rssi: b.rssi,
        local_name: b.local_name.unwrap(),
        counter: b.counter.unwrap(),
        temperature: b.temperature,
        humidity: b.humidity,
        ambient_light: b.ambient_light,
    }
}

/// Accumulates the parts of a measurement and validates them on `build`.
pub struct MeasurementBuilder<'a> {
    address: Address,
    rssi: u8,
    local_name: Option<&'a str>,
    counter: Option<u16>,
    temperature: Option<Temperature>,
    humidity: Option<Humidity>,
    ambient_light: Option<AmbientLight>,
    parse_error: bool,
}

impl<'a> View for MeasurementBuilder<'a> {
    type V = BuilderModel;

    closed spec fn view(&self) -> BuilderModel {
        BuilderModel {
            address: self.address.0@,
            rssi: self.rssi,
            local_name: match self.local_name {
                Some(s) => Some(s@),
                None => None,
            },
            counter: self.counter,
            temperature: temp_view(self.temperature),
            humidity: humi_view(self.humidity),
            ambient_light: lux_view(self.ambient_light),
            parse_error: self.parse_error,
        }
    }
}

impl<'a> MeasurementBuilder<'a> {
    /// A fresh builder: no name, no counter, no readings, no parse error.
    pub fn new(address: Address, rssi: u8) -> (r: Self)
        ensures
            r@ == (BuilderModel {
                address: address.0@,
                rssi: rssi,
                local_name: None,
                counter: None,
                temperature: None,
                humidity: None,
                ambient_light: None,
                parse_error: false,
            }),
    {
        MeasurementBuilder {
            address,
            rssi,
            local_name: None,
            counter: None,
            temperature: None,
            humidity: None,
            ambient_light: None,
            parse_error: false,
        }
    }

    /// Records the advertised complete local name.
    pub fn local_name(&mut self, name: &'a str)
        ensures
            final(self)@ == (BuilderModel { local_name: Some(name@), ..old(self)@ }),
    {
        self.local_name = Some(name);
    }

    /// Records the cycle counter.
    pub fn counter(&mut self, counter: u16)
        ensures
            final(self)@ == (BuilderModel { counter: Some(counter), ..old(self)@ }),
    {
        self.counter = Some(counter);
    }

    /// Records a temperature reading.
    pub fn temperature(&mut self, val: Temperature)
        ensures
            final(self)@ == (BuilderModel { temperature: Some(val@), ..old(self)@ }),
    {
        self.temperature = Some(val);
    }

    /// Records a humidity reading.
    pub fn humidity(&mut self, val: Humidity)
        ensures
            final(self)@ == (BuilderModel { humidity: Some(val@), ..old(self)@ }),
    {
        self.humidity = Some(val);
    }

    /// Records an ambient-light reading.
    pub fn ambient_light(&mut self, val: AmbientLight)
        ensures
            final(self)@ == (BuilderModel { ambient_light: Some(val@), ..old(self)@ }),
    {
        self.ambient_light = Some(val);
    }

    /// The counter parsed so far, if any.
    pub fn parsed_counter(&self) -> (r: Option<u16>)
        ensures
            r == self@.counter,
    {
        self.counter
    }

    /// The temperature parsed so far, if any.
    pub fn parsed_temperature(&self) -> (r: Option<Temperature>)
        ensures
            temp_view(r) == self@.temperature,
    {
        match &self.temperature {
            Some(t) => Some(Temperature(t.0)),
            None => None,
        }
    }

    /// Parses a wire payload: two counter bytes, then (tag, value) pairs.
    ///
    /// An unrecognized tag ends parsing there without failing, since the
    /// width of its value is unknown.  A payload too short for the counter,
    /// or a recognized tag cut short, fails; fields parsed before the
    /// failure are kept, so an intact counter stays readable.
    pub fn parse_payload(&mut self, payload: &[u8]) -> (r: Result<(), &'static str>)
        ensures
            final(self)@ == parse_payload_spec(old(self)@, payload@),
            r is Ok <==> parse_ok_spec(old(self)@, payload@),
            r matches Err(e) ==> e@ == "Malformed payload"@,
    {
        if payload.len() < 2 {
            self.parse_error = true;
            return Err("Malformed payload");
        }
        let c: u16 = payload[0] as u16 + payload[1] as u16 * 256;
        self.counter = Some(c);
        let ghost b0 = old(self)@;
        let mut i: usize = 2;
        #[verifier::loop_isolation(false)]
        while i < payload.len()
            invariant
                2 <= i <= payload@.len(),
                self@.address == b0.address,
                self@.rssi == b0.rssi,
                self@.local_name == b0.local_name,
                self@.parse_error == b0.parse_error,
                self@.counter == Some(le16(payload@[0], payload@[1])),
                parse_readings(b0.temperature, b0.humidity, b0.ambient_light, payload@.skip(2))
                    == parse_readings(
                    self@.temperature,
                    self@.humidity,
                    self@.ambient_light,
                    payload@.skip(i as int),
                ),
            decreases payload@.len() - i,
        {
            let ghost pre = self@;
            let ghost s = payload@.skip(i as int);
            proof {
                assert(s[0] == payload@[i as int]);
            }
            let tag = payload[i];
            if tag == SENSOR_TEMP || tag == SENSOR_HUMI || tag == SENSOR_LUX {
                if payload.len() - i < 5 {
                    self.parse_error = true;
                    proof {
                        assert(parse_readings(pre.temperature, pre.humidity, pre.ambient_light, s)
                            == (pre.temperature, pre.humidity, pre.ambient_light, false));
                    }
                    return Err("Malformed payload");
                }
                let raw: [u8; 4] = [payload[i + 1], payload[i + 2], payload[i + 3], payload[i
                    + 4]];
                proof {
                    assert(s[1] == payload@[i + 1]);
                    assert(s[2] == payload@[i + 2]);
                    assert(s[3] == payload@[i + 3]);
                    assert(s[4] == payload@[i + 4]);
                    assert(s.skip(5) =~= payload@.skip(i + 5));
                }
                if tag == SENSOR_TEMP {
                    self.temperature = Some(Temperature::from_le_bytes(raw));
                } else if tag == SENSOR_HUMI {
                    self.humidity = Some(Humidity::from_le_bytes(raw));
                } else {
                    self.ambient_light = Some(AmbientLight::from_le_bytes(raw));
                }
                i = i + 5;
            } else {
                proof {
                    assert(parse_readings(pre.temperature, pre.humidity, pre.ambient_light, s)
                        == (pre.temperature, pre.humidity, pre.ambient_light, true));
                }
                return Ok(());
            }
        }
        proof {
            assert(payload@.skip(i as int) =~= Seq::<u8>::empty());
        }
        Ok(())
    }

    /// Validates the accumulated parts.  A parse error, a missing local
    /// name or a missing counter is a build failure; readings stay
    /// individually optional.
    pub fn build(self) -> (r: Result<Measurement<'a>, &'static str>)
        ensures
            self@.parse_error ==> (r matches Err(e) && e@ == "Error while parsing packet"@),
            !self@.parse_error && self@.local_name is None ==> (r matches Err(e) && e@
                == "Missing local name"@),
            !self@.parse_error && self@.local_name is Some && self@.counter is None ==> (
            r matches Err(e) && e@ == "Missing counter"@),
            builds(self@) ==> (r matches Ok(m) && m@ == built_measurement(self@)),
    {
        if self.parse_error {
            return Err("Error while parsing packet");
        }
        let local_name = match self.local_name {
            Some(n) => n,
            None => {
                return Err("Missing local name");
            },
        };
        let counter = match self.counter {
            Some(c) => c,
            None => {
                return Err("Missing counter");
            },
        };
        Ok(Measurement {
            address: self.address,
            rssi: self.rssi,
            local_name,
            counter,
            temperature: self.temperature,
            humidity: self.humidity,
            ambient_light: self.ambient_light,
        })
    }
}

} // verus!
