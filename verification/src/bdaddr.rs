//! The six-byte address of a Bluetooth device.

use vstd::prelude::*;
use vstd::std_specs::cmp::PartialEqSpecImpl;
use vstd::std_specs::convert::FromSpecImpl;
use vstd::string::StrSliceExecFns;
use vstd::string::StringExecFns;

verus! {

/// The address by which a Bluetooth device is told from the others, most significant byte
/// first.
#[derive(Clone, Copy, Debug, Eq, Hash)]
pub struct BDAddr {
    pub address: [u8; 6],
}

/// The upper-case character of a hexadecimal digit.
pub open spec fn upper_hex(digit: int) -> char {
    "0123456789ABCDEF"@[digit]
}

impl PartialEq for BDAddr {
    fn eq(&self, other: &BDAddr) -> (equal: bool) {
        let mut i: usize = 0;
        while i < 6
            invariant
                i <= 6,
                forall|k: int| 0 <= k < i ==> self.address@[k] == other.address@[k],
            decreases 6 - i,
        {
            if self.address[i] != other.address[i] {
                return false;
            }
            i += 1;
        }
        assert(self.address =~= other.address);
        true
    }
}

impl PartialEqSpecImpl for BDAddr {
    open spec fn obeys_eq_spec() -> bool {
        true
    }

    open spec fn eq_spec(&self, other: &BDAddr) -> bool {
        *self == *other
    }
}

impl From<[u8; 6]> for BDAddr {
    fn from(address: [u8; 6]) -> (made: BDAddr) {
        BDAddr { address }
    }
}

impl FromSpecImpl<[u8; 6]> for BDAddr {
    open spec fn obeys_from_spec() -> bool {
        true
    }

    open spec fn from_spec(address: [u8; 6]) -> BDAddr {
        BDAddr { address }
    }
}

impl BDAddr {
    /// The address as text: its bytes as two upper-case hexadecimal digits each, in order,
    /// with a colon between neighbours.
    pub open spec fn text(self) -> Seq<char> {
        Seq::new(
            17,
            |i: int|
                if i % 3 == 2 {
                    ':'
                } else if i % 3 == 0 {
                    upper_hex(self.address@[i / 3] as int / 16)
                } else {
                    upper_hex(self.address@[i / 3] as int % 16)
                },
        )
    }

    /// The six bytes of the address.
    pub fn into_inner(self) -> (address: [u8; 6])
        ensures
            address == self.address,
    {
        self.address
    }

    /// The address in the form `2A:CC:00:34:FA:00`.
    pub fn to_text(&self) -> (text: String)
        ensures
            text@ == self.text(),
    {
        let digits = "0123456789ABCDEF";
        proof {
            reveal_strlit("0123456789ABCDEF");
            reveal_strlit(":");
        }
        let mut text = String::new();
        let mut i: usize = 0;
        while i < 6
            invariant
                i <= 6,
                digits@ == "0123456789ABCDEF"@,
                digits@.len() == 16,
                digits.is_ascii(),
                ":"@ == seq![':'],
                text@.len() == (if i == 0 {
                    0int
                } else {
                    3 * i - 1
                }),
                forall|k: int| 0 <= k < text@.len() ==> text@[k] == self.text()[k],
            decreases 6 - i,
        {
            if i > 0 {
                text.append(":");
            }
            let byte: u8 = self.address[i];
            let high: usize = (byte / 16) as usize;
            let low: usize = (byte % 16) as usize;
            text.append(digits.substring_ascii(high, high + 1));
            text.append(digits.substring_ascii(low, low + 1));
            i += 1;
        }
        assert(text@ =~= self.text());
        text
    }
}

} // verus!
