//! Object ids: the fixed-width content hash that names a commit, tree or
//! blob, and its hexadecimal form.

use vstd::prelude::*;
use crate::text::string_from_chars;
use crate::text::str_to_chars;
use vstd::string::StrSliceExecFns;

verus! {

/// Width of an object id in bytes.
pub const OID_LEN: usize = 20;

/// Width of an object id written out in hexadecimal.
pub const OID_HEX_LEN: usize = 40;

/// The identity of an object: the hash of its content.
#[derive(Clone, Copy, Debug, PartialEq, Eq, Hash)]
pub struct ObjectId {
    bytes: [u8; 20],
}

impl View for ObjectId {
    type V = Seq<u8>;

    closed spec fn view(&self) -> Seq<u8> {
        self.bytes@
    }
}

/// The lower-case hexadecimal digit of a value below sixteen.
pub open spec fn hex_digit(n: int) -> char {
    seq!['0', '1', '2', '3', '4', '5', '6', '7', '8', '9', 'a', 'b', 'c', 'd', 'e', 'f'][n]
}

/// The value of a hexadecimal digit of either case; `None` for any other
/// character.
pub open spec fn hex_value(c: char) -> Option<u8> {
    let v = c as u32;
    if 48 <= v <= 57 {
        Some((v - 48) as u8)
    } else if 97 <= v <= 102 {
        Some((v - 87) as u8)
    } else if 65 <= v <= 70 {
        Some((v - 55) as u8)
    } else {
        None
    }
}

/// The hexadecimal form of a byte string: two lower-case digits per byte,
/// the high half first.
pub open spec fn hex_of(bytes: Seq<u8>) -> Seq<char> {
    Seq::new(
        2 * bytes.len(),
        |i: int|
            if i % 2 == 0 {
                hex_digit(bytes[i / 2] as int / 16)
            } else {
                hex_digit(bytes[i / 2] as int % 16)
            },
    )
}

/// The value of the digit at place `p` of `s`, and zero past its end.
pub open spec fn nibble_at(s: Seq<char>, p: int) -> int {
    if 0 <= p < s.len() {
        match hex_value(s[p]) {
            Some(v) => v as int,
            None => 0,
        }
    } else {
        0
    }
}

/// Whether `s` can be read as an object id: between one and forty
/// hexadecimal digits.
pub open spec fn is_hex_id(s: Seq<char>) -> bool {
    &&& 1 <= s.len() <= OID_HEX_LEN
    &&& forall|i: int| 0 <= i < s.len() ==> (#[trigger] hex_value(s[i])) is Some
}

/// Whether `s` is an object id written out in full: forty hexadecimal
/// digits.
pub open spec fn is_full_hash(s: Seq<char>) -> bool {
    s.len() == OID_HEX_LEN && is_hex_id(s)
}

/// The twenty bytes that the digits of `s` spell; digits that `s` does not
/// have count as zero.
pub open spec fn bytes_of_hex(s: Seq<char>) -> Seq<u8> {
    Seq::new(OID_LEN as nat, |k: int| (nibble_at(s, 2 * k) * 16 + nibble_at(s, 2 * k + 1)) as u8)
}

fn hex_char(n: u8) -> (c: char)
    requires
        n < 16,
    ensures
        c == hex_digit(n as int),
        hex_value(c) == Some(n),
{
    match n {
        0 => '0',
        1 => '1',
        2 => '2',
        3 => '3',
        4 => '4',
        5 => '5',
        6 => '6',
        7 => '7',
        8 => '8',
        9 => '9',
        10 => 'a',
        11 => 'b',
        12 => 'c',
        13 => 'd',
        14 => 'e',
        _ => 'f',
    }
}

fn hex_val(c: char) -> (r: Option<u8>)
    ensures
        r == hex_value(c),
        r matches Some(v) ==> v < 16,
{
    let v: u32 = c as u32;
    if 48 <= v && v <= 57 {
        Some((v - 48) as u8)
    } else if 97 <= v && v <= 102 {
        Some((v - 87) as u8)
    } else if 65 <= v && v <= 70 {
        Some((v - 55) as u8)
    } else {
        None
    }
}

impl ObjectId {
    /// The id made of the given twenty bytes.
    pub fn from_array(bytes: [u8; 20]) -> (id: ObjectId)
        ensures
            id@ == bytes@,
    {
        ObjectId { bytes }
    }

    /// The id made of `bytes`, if there are exactly twenty of them.
    pub fn from_bytes(bytes: &[u8]) -> (r: Option<ObjectId>)
        ensures
            bytes@.len() == OID_LEN ==> r is Some && r->0@ == bytes@,
            bytes@.len() != OID_LEN ==> r is None,
    {
        if bytes.len() != OID_LEN {
            return None;
        }
        let mut out: [u8; 20] = [0u8; 20];
        let mut i: usize = 0;
        while i < OID_LEN
            invariant
                i <= OID_LEN,
                bytes@.len() == OID_LEN,
                out@.len() == OID_LEN,
                forall|k: int| 0 <= k < i ==> out@[k] == bytes@[k],
            decreases OID_LEN - i,
        {
            out[i] = bytes[i];
            i += 1;
        }
        assert(out@ =~= bytes@);
        Some(ObjectId { bytes: out })
    }

    /// The bytes of the id.
    pub fn as_bytes(&self) -> (b: &[u8; 20])
        ensures
            b@ == self@,
    {
        &self.bytes
    }

    /// An object id is always twenty bytes wide.
    pub proof fn lemma_len(self)
        ensures
            self@.len() == OID_LEN,
    {
    }

    /// Whether every byte of the id is zero: the id that stands for "no
    /// object".
    pub open spec fn spec_is_zero(&self) -> bool {
        forall|i: int| 0 <= i < self@.len() ==> self@[i] == 0
    }

    #[verifier::when_used_as_spec(spec_is_zero)]
    pub fn is_zero(&self) -> (z: bool)
        ensures
            z == self.spec_is_zero(),
    {
        let mut i: usize = 0;
        while i < OID_LEN
            invariant
                i <= OID_LEN,
                self.bytes@.len() == OID_LEN,
                forall|k: int| 0 <= k < i ==> self.bytes@[k] == 0,
            decreases OID_LEN - i,
        {
            if self.bytes[i] != 0 {
                assert(self@[i as int] != 0);
                return false;
            }
            i += 1;
        }
        true
    }

    /// Whether two ids are the same id.
    pub fn same(&self, other: &ObjectId) -> (r: bool)
        ensures
            r == (self@ == other@),
    {
        let mut i: usize = 0;
        while i < OID_LEN
            invariant
                i <= OID_LEN,
                self.bytes@.len() == OID_LEN,
                other.bytes@.len() == OID_LEN,
                forall|k: int| 0 <= k < i ==> self.bytes@[k] == other.bytes@[k],
            decreases OID_LEN - i,
        {
            if self.bytes[i] != other.bytes[i] {
                return false;
            }
            i += 1;
        }
        assert(self.bytes@ =~= other.bytes@);
        true
    }

    /// The id written out as forty lower-case hexadecimal digits.
    pub fn to_hex(&self) -> (s: String)
        ensures
            s@ == hex_of(self@),
            s@.len() == OID_HEX_LEN,
    {
        let mut out: Vec<char> = Vec::new();
        let mut i: usize = 0;
        while i < OID_LEN
            invariant
                i <= OID_LEN,
                self.bytes@.len() == OID_LEN,
                out@.len() == 2 * i,
                forall|k: int| 0 <= k < 2 * i ==> out@[k] == hex_of(self@)[k],
            decreases OID_LEN - i,
        {
            let b: u8 = self.bytes[i];
            out.push(hex_char(b / 16));
            out.push(hex_char(b % 16));
            i += 1;
        }
        assert(out@ =~= hex_of(self@));
        string_from_chars(&out)
    }

    /// Reads an id from its hexadecimal form. Between one and forty digits
    /// of either case are accepted; a shorter form stands for the id whose
    /// remaining digits are zero. Anything else is no id.
    pub fn from_hex(s: &str) -> (r: Option<ObjectId>)
        ensures
            is_hex_id(s@) ==> r is Some && r->0@ == bytes_of_hex(s@),
            !is_hex_id(s@) ==> r is None,
    {
        let chars = str_to_chars(s);
        let n = chars.len();
        if n == 0 || n > OID_HEX_LEN {
            return None;
        }
        let mut out: [u8; 20] = [0u8; 20];
        let mut p: usize = 0;
        while p < n
            invariant
                p <= n,
                n == chars@.len(),
                chars@ == s@,
                1 <= n <= OID_HEX_LEN,
                out@.len() == OID_LEN,
                forall|i: int| 0 <= i < p ==> (#[trigger] hex_value(s@[i])) is Some,
                forall|k: int|
                    0 <= k < OID_LEN ==> out@[k] as int == (if 2 * k < p {
                        nibble_at(s@, 2 * k) * 16
                    } else {
                        0
                    }) + (if 2 * k + 1 < p {
                        nibble_at(s@, 2 * k + 1)
                    } else {
                        0
                    }),
            decreases n - p,
        {
            match hex_val(chars[p]) {
                None => {
                    assert(hex_value(s@[p as int]) is None);
                    return None;
                },
                Some(v) => {
                    let k: usize = p / 2;
                    let old_byte: u8 = out[k];
                    if p % 2 == 0 {
                        assert(old_byte == 0);
                        out[k] = v * 16;
                    } else {
                        assert(old_byte as int == nibble_at(s@, 2 * k as int) * 16);
                        assert(nibble_at(s@, 2 * k as int) < 16);
                        out[k] = old_byte + v;
                    }
                },
            }
            p += 1;
        }
        proof {
            assert forall|k: int| 0 <= k < OID_LEN implies out@[k] == bytes_of_hex(s@)[k] by {
                assert(nibble_at(s@, 2 * k) < 16);
                assert(nibble_at(s@, 2 * k + 1) < 16);
            }
            assert(out@ =~= bytes_of_hex(s@));
        }
        Some(ObjectId { bytes: out })
    }

    /// Reads an id that is written out in full: forty hexadecimal digits
    /// of either case. Anything else is no full id.
    pub fn from_full_hex(s: &str) -> (r: Option<ObjectId>)
        ensures
            is_full_hash(s@) ==> r is Some && r->0@ == bytes_of_hex(s@),
            !is_full_hash(s@) ==> r is None,
    {
        if s.unicode_len() != OID_HEX_LEN {
            None
        } else {
            ObjectId::from_hex(s)
        }
    }
}

/// Writing an id out and reading it back gives the same id: the full
/// hexadecimal form of an id names that id and no other.
pub proof fn lemma_hex_round_trip(id: ObjectId)
    ensures
        is_hex_id(hex_of(id@)),
        is_full_hash(hex_of(id@)),
        bytes_of_hex(hex_of(id@)) == id@,
{
    let b = id@;
    let h = hex_of(b);
    assert(b.len() == OID_LEN);
    assert forall|n: int| 0 <= n < 16 implies hex_value(hex_digit(n)) == Some(n as u8) by {
        lemma_hex_digit_value(n);
    }
    assert forall|i: int| 0 <= i < h.len() implies (#[trigger] hex_value(h[i])) is Some by {
        let n = if i % 2 == 0 {
            b[i / 2] as int / 16
        } else {
            b[i / 2] as int % 16
        };
        assert(h[i] == hex_digit(n));
        lemma_hex_digit_value(n);
    }
    assert forall|k: int| 0 <= k < OID_LEN implies bytes_of_hex(h)[k] == b[k] by {
        assert(h[2 * k] == hex_digit(b[k] as int / 16));
        assert(h[2 * k + 1] == hex_digit(b[k] as int % 16));
        lemma_hex_digit_value(b[k] as int / 16);
        lemma_hex_digit_value(b[k] as int % 16);
    }
    assert(bytes_of_hex(h) =~= b);
}

/// A hexadecimal digit has the value it was made from.
pub proof fn lemma_hex_digit_value(n: int)
    requires
        0 <= n < 16,
    ensures
        hex_value(hex_digit(n)) == Some(n as u8),
{
    if n == 0 {
    } else if n == 1 {
    } else if n == 2 {
    } else if n == 3 {
    } else if n == 4 {
    } else if n == 5 {
    } else if n == 6 {
    } else if n == 7 {
    } else if n == 8 {
    } else if n == 9 {
    } else if n == 10 {
    } else if n == 11 {
    } else if n == 12 {
    } else if n == 13 {
    } else if n == 14 {
    } else {
    }
}

} // verus!
