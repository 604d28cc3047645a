//! 128-bit UUIDs and the short identifiers that Bluetooth embeds in them.
//!
//! A UUID is held as the number that the `uuid` crate calls its `u128` value, and the short
//! form follows the `bleuuid` module of the `btleplug` crate, so that a value means the same
//! here and there.

use vstd::arithmetic::power::pow;
use vstd::prelude::*;

verus! {

/// The Bluetooth base UUID, `00000000-0000-1000-8000-00805f9b34fb`.
pub const BLUETOOTH_BASE_UUID: u128 = 0x00000000_0000_1000_8000_00805f9b34fb;

/// The bits that a UUID made from a 16-bit identifier shares with the base UUID.
pub const BLUETOOTH_BASE_MASK_16: u128 = 0xffff0000_ffff_ffff_ffff_ffffffffffff;

/// The weight of a short identifier inside the 128-bit value: two to the power of 96.
pub const SHORT_ID_UNIT: u128 = 0x1_00000000_00000000_00000000;

/// A 128-bit universally unique identifier, held as the number that its sixteen bytes spell,
/// most significant byte first.
#[derive(Clone, Copy, Debug, PartialEq, Eq, Hash, Structural)]
pub struct Uuid {
    pub value: u128,
}

/// Digit `index` of the 32-digit hexadecimal numeral of `value`, the most significant being
/// digit 0.
pub open spec fn hex_digit(value: u128, index: int) -> int {
    (value as int / pow(16, (31 - index) as nat)) % 16
}

/// The lower-case character of a hexadecimal digit.
pub open spec fn lower_hex(digit: int) -> char {
    "0123456789abcdef"@[digit]
}

/// Whether a hyphen stands at `position` of the 36-character form.
pub open spec fn is_hyphen_position(position: int) -> bool {
    position == 8 || position == 13 || position == 18 || position == 23
}

/// The number of hyphens that stand before `position` of the 36-character form.
pub open spec fn hyphens_before(position: int) -> int {
    if position > 23 {
        4
    } else if position > 18 {
        3
    } else if position > 13 {
        2
    } else if position > 8 {
        1
    } else {
        0
    }
}

/// The hyphenated lower-case form of a UUID: 32 hexadecimal digits in groups of 8, 4, 4, 4
/// and 12.
pub open spec fn hyphenated_text(value: u128) -> Seq<char> {
    Seq::new(
        36,
        |i: int|
            if is_hyphen_position(i) {
                '-'
            } else {
                lower_hex(hex_digit(value, i - hyphens_before(i)))
            },
    )
}

/// Formats a UUID through `Display` of `uuid::Uuid`, built by `uuid::Uuid::from_u128`.
///
/// Trusted: the uuid crate writes the value as 32 lower-case hexadecimal digits, most
/// significant first, with hyphens after the 8th, 12th, 16th and 20th digit.
#[verifier::external_body]
fn uuid_text(value: u128) -> (text: String)
    ensures
        text@ == hyphenated_text(value),
{
    format!("{}", uuid::Uuid::from_u128(value))
}

impl Uuid {
    /// The UUID that stands for the 16-bit identifier `code`.
    pub open spec fn short(code: u16) -> Uuid {
        Uuid { value: (BLUETOOTH_BASE_UUID + code * SHORT_ID_UNIT) as u128 }
    }

    /// The 16-bit identifier that this UUID stands for, if it stands for one.
    pub open spec fn short_code(self) -> Option<u16> {
        let offset: int = self.value - BLUETOOTH_BASE_UUID;
        if offset >= 0 && offset % (SHORT_ID_UNIT as int) == 0 && offset / (SHORT_ID_UNIT as int)
            <= 0xffff {
            Some((offset / (SHORT_ID_UNIT as int)) as u16)
        } else {
            None
        }
    }

    /// The text that `hyphenated` returns.
    pub open spec fn text(self) -> Seq<char> {
        hyphenated_text(self.value)
    }

    /// The UUID whose sixteen bytes spell `value`, most significant byte first.
    pub fn from_u128(value: u128) -> (uuid: Uuid)
        ensures
            uuid.value == value,
    {
        Uuid { value }
    }

    /// The number that the sixteen bytes of the UUID spell.
    pub fn as_u128(&self) -> (value: u128)
        ensures
            value == self.value,
    {
        self.value
    }

    /// The 16-bit identifier of a UUID that differs from the base UUID in those sixteen bits
    /// alone; `None` for any other UUID.
    pub fn to_ble_u16(&self) -> (code: Option<u16>)
        ensures
            code == self.short_code(),
    {
        let value: u128 = self.value;
        proof {
            lemma_short_form_bits(value);
        }
        if value & BLUETOOTH_BASE_MASK_16 == BLUETOOTH_BASE_UUID {
            Some((value >> 96) as u16)
        } else {
            None
        }
    }

    /// The UUID as text, in the form `0000180a-0000-1000-8000-00805f9b34fb`.
    pub fn hyphenated(&self) -> (text: String)
        ensures
            text@ == self.text(),
    {
        uuid_text(self.value)
    }
}

/// Fills the 16-bit identifier `short` into the Bluetooth base UUID.
pub fn uuid_from_u16(short: u16) -> (uuid: Uuid)
    ensures
        uuid == Uuid::short(short),
{
    assert(0x00000000_0000_1000_8000_00805f9b34fbu128 | ((short as u128) << 96)
        == 0x00000000_0000_1000_8000_00805f9b34fbu128 + (short as u128)
        * 0x1_00000000_00000000_00000000u128) by (bit_vector);
    Uuid { value: BLUETOOTH_BASE_UUID | ((short as u128) << 96) }
}

/// The mask test and the shift of `to_ble_u16`, in terms of arithmetic.
proof fn lemma_short_form_bits(value: u128)
    ensures
        (Uuid { value }).short_code() == if value & BLUETOOTH_BASE_MASK_16
            == BLUETOOTH_BASE_UUID {
            Some((value >> 96) as u16)
        } else {
            None::<u16>
        },
{
    assert(value & 0xffff0000_ffff_ffff_ffff_ffffffffffffu128
        == 0x00000000_0000_1000_8000_00805f9b34fbu128 ==> value
        == 0x00000000_0000_1000_8000_00805f9b34fbu128 + (((value >> 96) as u16) as u128)
        * 0x1_00000000_00000000_00000000u128) by (bit_vector);
    if value & BLUETOOTH_BASE_MASK_16 != BLUETOOTH_BASE_UUID {
        if (Uuid { value }).short_code() is Some {
            let code: u16 = (Uuid { value }).short_code().unwrap();
            assert(value == BLUETOOTH_BASE_UUID + code * SHORT_ID_UNIT);
            assert(((0x00000000_0000_1000_8000_00805f9b34fbu128 + (code as u128)
                * 0x1_00000000_00000000_00000000u128) as u128)
                & 0xffff0000_ffff_ffff_ffff_ffffffffffffu128
                == 0x00000000_0000_1000_8000_00805f9b34fbu128) by (bit_vector);
        }
    }
}

/// A short identifier is read back from the UUID that was made from it.
pub proof fn lemma_short_round_trip(code: u16)
    ensures
        Uuid::short(code).short_code() == Some(code),
{
}

/// A UUID that stands for a short identifier is the one made from that identifier.
pub proof fn lemma_short_code_determines_uuid(uuid: Uuid, code: u16)
    requires
        uuid.short_code() == Some(code),
    ensures
        uuid == Uuid::short(code),
{
}

} // verus!
