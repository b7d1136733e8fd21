//! Device addresses.

use vstd::prelude::*;

verus! {

/// Whether a character is an ASCII hexadecimal digit.
pub open spec fn is_hex_digit(c: char) -> bool {
    (48 <= c as u32 && c as u32 <= 57) || (97 <= c as u32 && c as u32 <= 102) || (65 <= c as u32
        && c as u32 <= 70)
}

/// The numeric value of an ASCII hexadecimal digit.
pub open spec fn hex_digit_value(c: char) -> u8 {
    if 48 <= c as u32 && c as u32 <= 57 {
        (c as u32 - 48) as u8
    } else if 97 <= c as u32 && c as u32 <= 102 {
        (c as u32 - 87) as u8
    } else if 65 <= c as u32 && c as u32 <= 70 {
        (c as u32 - 55) as u8
    } else {
        0
    }
}

/// The byte encoded by two hexadecimal digits.
pub open spec fn hex_byte(hi: char, lo: char) -> u8
    recommends
        is_hex_digit(hi),
        is_hex_digit(lo),
{
    (hex_digit_value(hi) * 16 + hex_digit_value(lo)) as u8
}

/// A fixed six-byte device identifier, stored in canonical order.
///
/// Equality and hashing go by the raw bytes.  On the air the bytes travel in
/// reversed order; they are un-reversed at the capture boundary, so that
/// comparisons and configuration matching agree everywhere else.
#[derive(Debug, PartialEq, Eq, Hash, Copy, Clone)]
pub struct Address(pub [u8; 6]);

/// The numeric value of a hexadecimal digit.
fn hex_digit(c: char) -> (r: u8)
    requires
        is_hex_digit(c),
    ensures
        r == hex_digit_value(c),
{
    let v = c as u32;
    if v >= 97 {
        (v - 87) as u8
    } else if v >= 65 {
        (v - 55) as u8
    } else {
        (v - 48) as u8
    }
}

impl Address {
    /// Builds an address from the six bytes of a captured frame, where the
    /// bytes arrive in reversed transmission order.
    pub fn from_inverted_slice(addr: &[u8]) -> (r: Self)
        requires
            addr@.len() == 6,
        ensures
            forall|i: int| 0 <= i < 6 ==> r.0[i] == addr@[5 - i],
    {
        Self([addr[5], addr[4], addr[3], addr[2], addr[1], addr[0]])
    }

    /// Parses a twelve-digit hexadecimal address.
    pub fn from_hex(hexaddr: &str) -> (r: Self)
        requires
            hexaddr@.len() == 12,
            forall|i: int| 0 <= i < 12 ==> is_hex_digit(#[trigger] hexaddr@[i]),
        ensures
            forall|i: int|
                0 <= i < 6 ==> r.0[i] == hex_byte(hexaddr@[2 * i], hexaddr@[2 * i + 1]),
    {
        let mut data: [u8; 6] = [0, 0, 0, 0, 0, 0];
        let mut i: usize = 0;
        while i < 6
            invariant
                i <= 6,
                hexaddr@.len() == 12,
                forall|j: int| 0 <= j < 12 ==> is_hex_digit(#[trigger] hexaddr@[j]),
                forall|j: int|
                    0 <= j < i ==> data[j] == hex_byte(hexaddr@[2 * j], hexaddr@[2 * j + 1]),
            decreases 6 - i,
        {
            let hi = hex_digit(hexaddr.get_char(2 * i));
            let lo = hex_digit(hexaddr.get_char(2 * i + 1));
            data[i] = hi * 16 + lo;
            i += 1;
        }
        Self(data)
    }
}

} // verus!
