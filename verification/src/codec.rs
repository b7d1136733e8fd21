//! Wire-format codec for the beacon payload.
//!
//! The payload is a fixed two-byte little-endian cycle counter followed by
//! zero or more (tag, value) pairs.  Each recognized tag announces a
//! four-byte little-endian value: a signed fixed-point number for
//! temperature and humidity, the raw IEEE-754 bit pattern for ambient
//! light.  Absent readings are omitted entirely; the format is
//! self-describing through its tags.

use vstd::prelude::*;

verus! {

/// Tag announcing a temperature value (milli-degrees Celsius, signed).
pub const SENSOR_TEMP: u8 = 0x01;

/// Tag announcing a humidity value (milli-percent relative humidity, signed).
pub const SENSOR_HUMI: u8 = 0x02;

/// Tag announcing an ambient-light value (IEEE-754 bit pattern, lux).
pub const SENSOR_LUX: u8 = 0x04;

/// The vendor identifier reserved for this platform's manufacturer-specific
/// advertisement element.
pub const COMPANY_IDENTIFIER_CODE: u16 = 0xffff;

/// The 16-bit value stored little-endian in two bytes.
pub open spec fn le16(b0: u8, b1: u8) -> u16 {
    (b0 + b1 * 256) as u16
}

/// The 32-bit value stored little-endian in four bytes.
pub open spec fn le32(b0: u8, b1: u8, b2: u8, b3: u8) -> u32 {
    (b0 + b1 * 256 + b2 * 65536 + b3 * 16777216) as u32
}

/// The signed 32-bit value whose two's-complement bit pattern is `u`.
pub open spec fn i32_of_u32(u: u32) -> i32 {
    if u < 2147483648 {
        u as i32
    } else {
        (u - 4294967296) as i32
    }
}

/// The two's-complement bit pattern of a signed 32-bit value.
pub open spec fn u32_of_i32(v: i32) -> u32 {
    if v >= 0 {
        v as u32
    } else {
        (v + 4294967296) as u32
    }
}

/// The two little-endian bytes of a 16-bit value.
pub open spec fn le_bytes_u16(v: u16) -> Seq<u8> {
    seq![(v % 256) as u8, (v / 256) as u8]
}

/// The four little-endian bytes of a 32-bit value.
pub open spec fn le_bytes_u32(v: u32) -> Seq<u8> {
    seq![
        (v % 256) as u8,
        ((v / 256) % 256) as u8,
        ((v / 65536) % 256) as u8,
        ((v / 16777216) % 256) as u8,
    ]
}

/// Reading a 16-bit value back from its little-endian bytes is the identity.
pub proof fn lemma_le16_round_trip(v: u16)
    ensures
        le16(le_bytes_u16(v)[0], le_bytes_u16(v)[1]) == v,
{
}

/// Reading a 32-bit value back from its little-endian bytes is the identity.
pub proof fn lemma_le32_round_trip(v: u32)
    ensures
        le32(
            le_bytes_u32(v)[0],
            le_bytes_u32(v)[1],
            le_bytes_u32(v)[2],
            le_bytes_u32(v)[3],
        ) == v,
{
}

/// Taking a signed value's bit pattern and interpreting it back is the
/// identity: values survive encoding bit for bit.
pub proof fn lemma_i32_bits_round_trip(v: i32)
    ensures
        i32_of_u32(u32_of_i32(v)) == v,
{
}

/// The signed 32-bit value encoded little-endian in four bytes.
pub fn i32_from_le_bytes(raw: [u8; 4]) -> (r: i32)
    ensures
        r == i32_of_u32(le32(raw[0], raw[1], raw[2], raw[3])),
{
    let u: u32 = raw[0] as u32 + raw[1] as u32 * 256 + raw[2] as u32 * 65536 + raw[3] as u32
        * 16777216;
    if u >= 2147483648 {
        -((4294967295u32 - u) as i32) - 1
    } else {
        u as i32
    }
}

/// The unsigned 32-bit value encoded little-endian in four bytes.
pub fn u32_from_le_bytes(raw: [u8; 4]) -> (r: u32)
    ensures
        r == le32(raw[0], raw[1], raw[2], raw[3]),
{
    raw[0] as u32 + raw[1] as u32 * 256 + raw[2] as u32 * 65536 + raw[3] as u32 * 16777216
}

/// The two's-complement bit pattern of a signed 32-bit value.
pub fn u32_bits_of_i32(v: i32) -> (r: u32)
    ensures
        r == u32_of_i32(v),
{
    if v >= 0 {
        v as u32
    } else {
        let w: i32 = v + 1073741824 + 1073741824;
        w as u32 + 2147483648u32
    }
}

/// The encoded payload: the counter little-endian, then one (tag, value)
/// pair per present reading, absent readings omitted.
pub open spec fn encode_spec(
    counter: u16,
    temperature: Option<i32>,
    humidity: Option<i32>,
    ambient_light: Option<u32>,
) -> Seq<u8> {
    le_bytes_u16(counter) + (match temperature {
        Some(t) => seq![SENSOR_TEMP] + le_bytes_u32(u32_of_i32(t)),
        None => Seq::<u8>::empty(),
    }) + (match humidity {
        Some(h) => seq![SENSOR_HUMI] + le_bytes_u32(u32_of_i32(h)),
        None => Seq::<u8>::empty(),
    }) + (match ambient_light {
        Some(l) => seq![SENSOR_LUX] + le_bytes_u32(l),
        None => Seq::<u8>::empty(),
    })
}

/// The readings recovered from the (tag, value) pairs of a payload, given
/// the readings gathered so far.  A later pair for the same tag replaces an
/// earlier one.  An unrecognized tag ends decoding there, keeping what was
/// read, since the width of its value is unknown; that is not a failure.
/// A recognized tag followed by fewer than four bytes is a failure for that
/// field: the fourth component is false and the readings gathered so far
/// are kept.
pub open spec fn parse_readings(
    t: Option<i32>,
    h: Option<i32>,
    l: Option<u32>,
    s: Seq<u8>,
) -> (Option<i32>, Option<i32>, Option<u32>, bool)
    decreases s.len(),
{
    if s.len() == 0 {
        (t, h, l, true)
    } else if s[0] == SENSOR_TEMP {
        if s.len() >= 5 {
            parse_readings(Some(i32_of_u32(le32(s[1], s[2], s[3], s[4]))), h, l, s.skip(5))
        } else {
            (t, h, l, false)
        }
    } else if s[0] == SENSOR_HUMI {
        if s.len() >= 5 {
            parse_readings(t, Some(i32_of_u32(le32(s[1], s[2], s[3], s[4]))), l, s.skip(5))
        } else {
            (t, h, l, false)
        }
    } else if s[0] == SENSOR_LUX {
        if s.len() >= 5 {
            parse_readings(t, h, Some(le32(s[1], s[2], s[3], s[4])), s.skip(5))
        } else {
            (t, h, l, false)
        }
    } else {
        (t, h, l, true)
    }
}

/// Appends the four little-endian bytes of a 32-bit value.
fn push_le_u32(out: &mut Vec<u8>, x: u32)
    ensures
        final(out)@ == old(out)@ + le_bytes_u32(x),
{
    out.push((x % 256) as u8);
    out.push(((x / 256) % 256) as u8);
    out.push(((x / 65536) % 256) as u8);
    out.push(((x / 16777216) % 256) as u8);
    assert(out@ =~= old(out)@ + le_bytes_u32(x));
}

/// Encodes a measurement cycle's counter and readings as the wire payload.
pub fn encode_payload(
    counter: u16,
    temperature: Option<i32>,
    humidity: Option<i32>,
    ambient_light: Option<u32>,
) -> (r: Vec<u8>)
    ensures
        r@ == encode_spec(counter, temperature, humidity, ambient_light),
{
    let mut out: Vec<u8> = Vec::new();
    out.push((counter % 256) as u8);
    out.push((counter / 256) as u8);
    match temperature {
        Some(t) => {
            out.push(SENSOR_TEMP);
            push_le_u32(&mut out, u32_bits_of_i32(t));
        },
        None => {},
    }
    match humidity {
        Some(h) => {
            out.push(SENSOR_HUMI);
            push_le_u32(&mut out, u32_bits_of_i32(h));
        },
        None => {},
    }
    match ambient_light {
        Some(l) => {
            out.push(SENSOR_LUX);
            push_le_u32(&mut out, l);
        },
        None => {},
    }
    assert(out@ =~= encode_spec(counter, temperature, humidity, ambient_light));
    out
}

/// The manufacturer-specific advertisement element: the platform's vendor
/// identifier little-endian, then the encoded payload.
pub open spec fn manufacturer_data_spec(
    counter: u16,
    temperature: Option<i32>,
    humidity: Option<i32>,
    ambient_light: Option<u32>,
) -> Seq<u8> {
    le_bytes_u16(COMPANY_IDENTIFIER_CODE) + encode_spec(
        counter,
        temperature,
        humidity,
        ambient_light,
    )
}

/// Encodes the manufacturer-specific advertisement element around a
/// measurement cycle's counter and readings.
pub fn encode_manufacturer_data(
    counter: u16,
    temperature: Option<i32>,
    humidity: Option<i32>,
    ambient_light: Option<u32>,
) -> (r: Vec<u8>)
    ensures
        r@ == manufacturer_data_spec(counter, temperature, humidity, ambient_light),
{
    let mut out: Vec<u8> = Vec::new();
    out.push((COMPANY_IDENTIFIER_CODE % 256) as u8);
    out.push((COMPANY_IDENTIFIER_CODE / 256) as u8);
    let mut payload = encode_payload(counter, temperature, humidity, ambient_light);
    out.append(&mut payload);
    assert(out@ =~= manufacturer_data_spec(counter, temperature, humidity, ambient_light));
    out
}

/// Decoding one recognized (tag, value) pair at the front of a payload
/// records the value and continues with the rest.
proof fn lemma_parse_pair(
    t: Option<i32>,
    h: Option<i32>,
    l: Option<u32>,
    tag: u8,
    v: u32,
    rest: Seq<u8>,
)
    requires
        tag == SENSOR_TEMP || tag == SENSOR_HUMI || tag == SENSOR_LUX,
    ensures
        parse_readings(t, h, l, seq![tag] + le_bytes_u32(v) + rest) == (if tag == SENSOR_TEMP {
            parse_readings(Some(i32_of_u32(v)), h, l, rest)
        } else if tag == SENSOR_HUMI {
            parse_readings(t, Some(i32_of_u32(v)), l, rest)
        } else {
            parse_readings(t, h, Some(v), rest)
        }),
{
    let s = seq![tag] + le_bytes_u32(v) + rest;
    assert(s.len() == 5 + rest.len());
    assert(s[0] == tag);
    assert(s[1] == le_bytes_u32(v)[0]);
    assert(s[2] == le_bytes_u32(v)[1]);
    assert(s[3] == le_bytes_u32(v)[2]);
    assert(s[4] == le_bytes_u32(v)[3]);
    lemma_le32_round_trip(v);
    assert(le32(s[1], s[2], s[3], s[4]) == v);
    assert(s.skip(5) =~= rest);
}

/// Law: decoding an encoded payload recovers the counter and exactly the
/// readings that were present, bit for bit, for every subset of readings.
pub proof fn lemma_round_trip(
    counter: u16,
    temperature: Option<i32>,
    humidity: Option<i32>,
    ambient_light: Option<u32>,
)
    ensures
        ({
            let enc = encode_spec(counter, temperature, humidity, ambient_light);
            &&& enc.len() >= 2
            &&& le16(enc[0], enc[1]) == counter
            &&& parse_readings(None, None, None, enc.skip(2)) == (
                temperature,
                humidity,
                ambient_light,
                true,
            )
        }),
{
    let enc = encode_spec(counter, temperature, humidity, ambient_light);
    let g1: Seq<u8> = match temperature {
        Some(t) => seq![SENSOR_TEMP] + le_bytes_u32(u32_of_i32(t)),
        None => Seq::<u8>::empty(),
    };
    let g2: Seq<u8> = match humidity {
        Some(h) => seq![SENSOR_HUMI] + le_bytes_u32(u32_of_i32(h)),
        None => Seq::<u8>::empty(),
    };
    let g3: Seq<u8> = match ambient_light {
        Some(l) => seq![SENSOR_LUX] + le_bytes_u32(l),
        None => Seq::<u8>::empty(),
    };
    lemma_le16_round_trip(counter);
    assert(enc[0] == le_bytes_u16(counter)[0]);
    assert(enc[1] == le_bytes_u16(counter)[1]);
    assert(enc.skip(2) =~= g1 + g2 + g3);
    if let Some(t) = temperature {
        lemma_i32_bits_round_trip(t);
        assert(g1 + g2 + g3 =~= seq![SENSOR_TEMP] + le_bytes_u32(u32_of_i32(t)) + (g2 + g3));
        lemma_parse_pair(None, None, None, SENSOR_TEMP, u32_of_i32(t), g2 + g3);
    } else {
        assert(g1 + g2 + g3 =~= g2 + g3);
    }
    if let Some(h) = humidity {
        lemma_i32_bits_round_trip(h);
        assert(g2 + g3 =~= seq![SENSOR_HUMI] + le_bytes_u32(u32_of_i32(h)) + g3);
        lemma_parse_pair(temperature, None, None, SENSOR_HUMI, u32_of_i32(h), g3);
    } else {
        assert(g2 + g3 =~= g3);
    }
    if let Some(l) = ambient_light {
        assert(g3 =~= seq![SENSOR_LUX] + le_bytes_u32(l) + Seq::<u8>::empty());
        lemma_parse_pair(temperature, humidity, None, SENSOR_LUX, l, Seq::<u8>::empty());
    }
}

} // verus!
