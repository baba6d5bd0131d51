//! 128-bit opaque identifiers and their hexadecimal text form.

use vstd::prelude::*;
use vstd::string::{StrSliceExecFns, StringExecFns};

verus! {

/// An immutable 16-byte identifier. Equality is over the raw bytes; the text
/// form is exactly 32 lowercase hexadecimal digits.
#[derive(Clone, Copy, Debug)]
pub struct UniqueId([u8; 16]);

impl View for UniqueId {
    type V = Seq<u8>;

    closed spec fn view(&self) -> Seq<u8> {
        self.0@
    }
}

/// Relies on rand::Rng::fill on the thread-local generator, which rand
/// documents as cryptographically secure, to draw 16 random bytes.
#[verifier::external_body]
fn random_bytes() -> (r: [u8; 16]) {
    let mut b = [0u8; 16];
    rand::Rng::fill(&mut rand::thread_rng(), &mut b);
    b
}

/// The numeric value of one hexadecimal digit character, in either case.
fn hex_digit_val(c: char) -> (r: Option<u8>)
    ensures
        match r {
            Some(v) => is_hex_digit(c) && v == hex_val(c) && v < 16,
            None => !is_hex_digit(c),
        },
{
    if c >= '0' && c <= '9' {
        Some(((c as u32) - ('0' as u32)) as u8)
    } else if c >= 'a' && c <= 'f' {
        Some((10 + (c as u32) - ('a' as u32)) as u8)
    } else if c >= 'A' && c <= 'F' {
        Some((10 + (c as u32) - ('A' as u32)) as u8)
    } else {
        None
    }
}

/// Appends one lowercase hexadecimal digit to a string.
pub(crate) fn push_hex_digit(s: &mut String, n: u8)
    requires
        n < 16,
    ensures
        final(s)@ == old(s)@.push(hex_digit(n as int)),
{
    let d: &str = match n {
        0 => "0",
        1 => "1",
        2 => "2",
        3 => "3",
        4 => "4",
        5 => "5",
        6 => "6",
        7 => "7",
        8 => "8",
        9 => "9",
        10 => "a",
        11 => "b",
        12 => "c",
        13 => "d",
        14 => "e",
        _ => "f",
    };
    proof {
        reveal_strlit("0");
        reveal_strlit("1");
        reveal_strlit("2");
        reveal_strlit("3");
        reveal_strlit("4");
        reveal_strlit("5");
        reveal_strlit("6");
        reveal_strlit("7");
        reveal_strlit("8");
        reveal_strlit("9");
        reveal_strlit("a");
        reveal_strlit("b");
        reveal_strlit("c");
        reveal_strlit("d");
        reveal_strlit("e");
        reveal_strlit("f");
        assert(d@.len() == 1 && d@[0] == hex_digit(n as int));
        assert(old(s)@ + d@ =~= old(s)@.push(hex_digit(n as int)));
    }
    s.append(d);
}

impl UniqueId {
    /// Mints a fresh identifier from 16 cryptographically random bytes.
    pub fn new() -> UniqueId {
        UniqueId(random_bytes())
    }

    /// The 32-character lowercase hexadecimal text of the identifier.
    pub fn to_hex(&self) -> (r: String)
        ensures
            r@ == hex_of(self@),
            r@.len() == 32,
    {
        let mut s = String::new();
        let mut i: usize = 0;
        while i < 16
            invariant
                i <= 16,
                s@ == hex_of(self@).take(2 * i as int),
            decreases 16 - i,
        {
            let b = self.0[i];
            push_hex_digit(&mut s, b / 16);
            push_hex_digit(&mut s, b % 16);
            proof {
                assert(s@ =~= hex_of(self@).take(2 * (i + 1) as int));
            }
            i += 1;
        }
        proof {
            assert(hex_of(self@).take(32) =~= hex_of(self@));
        }
        s
    }

    /// Reads an identifier back from its hexadecimal text: exactly 32
    /// hexadecimal digits, in either case.
    pub fn parse_hex(s: &str) -> (r: Result<UniqueId, IdError>)
        ensures
            match r {
                Ok(id) => s@.len() == 32 && (forall|i: int|
                    0 <= i < 32 ==> is_hex_digit(#[trigger] s@[i])) && id@ == bytes_of_hex(s@),
                Err(e) => match e {
                    IdError::InvalidLength => s@.len() != 32,
                    IdError::NotHex => s@.len() == 32 && exists|i: int|
                        0 <= i < 32 && !is_hex_digit(#[trigger] s@[i]),
                },
            },
    {
        let n = s.unicode_len();
        if n != 32 {
            return Err(IdError::InvalidLength);
        }
        let mut bytes: Vec<u8> = Vec::new();
        let mut i: usize = 0;
        while i < 16
            invariant
                i <= 16,
                bytes@.len() == i,
                s@.len() == 32,
                forall|j: int| 0 <= j < 2 * i ==> is_hex_digit(#[trigger] s@[j]),
                forall|j: int| 0 <= j < i ==> bytes@[j] == bytes_of_hex(s@)[j],
            decreases 16 - i,
        {
            let c1 = s.get_char(2 * i);
            let c2 = s.get_char(2 * i + 1);
            let v1 = match hex_digit_val(c1) {
                Some(v) => v,
                None => {
                    proof {
                        assert(!is_hex_digit(s@[2 * i as int]));
                    }
                    return Err(IdError::NotHex);
                },
            };
            let v2 = match hex_digit_val(c2) {
                Some(v) => v,
                None => {
                    proof {
                        assert(!is_hex_digit(s@[2 * i as int + 1]));
                    }
                    return Err(IdError::NotHex);
                },
            };
            bytes.push(16 * v1 + v2);
            proof {
                assert(bytes@[i as int] == bytes_of_hex(s@)[i as int]);
            }
            i += 1;
        }
        let arr: [u8; 16] = [bytes[0], bytes[1], bytes[2], bytes[3], bytes[4], bytes[5], bytes[6], bytes[7], bytes[8], bytes[9], bytes[10], bytes[11], bytes[12], bytes[13], bytes[14], bytes[15]];
        proof {
            assert(arr@ =~= bytes_of_hex(s@));
        }
        Ok(UniqueId(arr))
    }

    /// Constructs an identifier from externally supplied bytes.
    pub fn existing(bytes: [u8; 16]) -> (r: Self)
        ensures
            r@ == bytes@,
    {
        UniqueId(bytes)
    }

    /// The raw bytes of the identifier.
    pub fn bytes(&self) -> (r: &[u8; 16])
        ensures
            r@ == self@,
    {
        &self.0
    }
}

/// Ways the text form of an identifier can be rejected.
#[derive(Clone, Copy, Debug, PartialEq, Eq, Structural)]
pub enum IdError {
    /// The text holds a character that is not a hexadecimal digit.
    NotHex,
    /// The text is not exactly 32 characters long.
    InvalidLength,
}

/// Whether a character is a hexadecimal digit, in either case.
pub open spec fn is_hex_digit(c: char) -> bool {
    ('0' <= c && c <= '9') || ('a' <= c && c <= 'f') || ('A' <= c && c <= 'F')
}

/// The numeric value of a hexadecimal digit.
pub open spec fn hex_val(c: char) -> int {
    if '0' <= c && c <= '9' {
        c as int - '0' as int
    } else if 'a' <= c && c <= 'f' {
        10 + (c as int - 'a' as int)
    } else {
        10 + (c as int - 'A' as int)
    }
}

/// The lowercase hexadecimal digit for a value below sixteen.
pub open spec fn hex_digit(n: int) -> char {
    if n == 0 {
        '0'
    } else if n == 1 {
        '1'
    } else if n == 2 {
        '2'
    } else if n == 3 {
        '3'
    } else if n == 4 {
        '4'
    } else if n == 5 {
        '5'
    } else if n == 6 {
        '6'
    } else if n == 7 {
        '7'
    } else if n == 8 {
        '8'
    } else if n == 9 {
        '9'
    } else if n == 10 {
        'a'
    } else if n == 11 {
        'b'
    } else if n == 12 {
        'c'
    } else if n == 13 {
        'd'
    } else if n == 14 {
        'e'
    } else {
        'f'
    }
}

/// The lowercase hexadecimal text of a byte sequence: two digits per byte.
pub open spec fn hex_of(bytes: Seq<u8>) -> Seq<char> {
    Seq::new(bytes.len() * 2, |i: int| if i % 2 == 0 {
        hex_digit((bytes[i / 2] / 16) as int)
    } else {
        hex_digit((bytes[i / 2] % 16) as int)
    })
}

/// The bytes denoted by a hexadecimal text of even length.
pub open spec fn bytes_of_hex(s: Seq<char>) -> Seq<u8> {
    Seq::new(s.len() / 2, |i: int| (16 * hex_val(s[2 * i]) + hex_val(s[2 * i + 1])) as u8)
}

/// Hexadecimal digits produced from values below sixteen read back as the
/// same value.
pub proof fn lemma_hex_digit_val(n: int)
    requires
        0 <= n < 16,
    ensures
        is_hex_digit(hex_digit(n)),
        hex_val(hex_digit(n)) == n,
{
}

/// Round trip of the identifier's text form: the hexadecimal text of any
/// 16-byte sequence is 32 hexadecimal digits, and parsing it yields the same
/// bytes back.
pub proof fn lemma_unique_id_round_trip(bytes: Seq<u8>)
    requires
        bytes.len() == 16,
    ensures
        hex_of(bytes).len() == 32,
        forall|i: int| 0 <= i < 32 ==> is_hex_digit(#[trigger] hex_of(bytes)[i]),
        bytes_of_hex(hex_of(bytes)) == bytes,
{
    let h = hex_of(bytes);
    assert forall|i: int| 0 <= i < 32 implies is_hex_digit(#[trigger] h[i]) by {
        lemma_hex_digit_val((bytes[i / 2] / 16) as int);
        lemma_hex_digit_val((bytes[i / 2] % 16) as int);
    }
    assert forall|i: int| 0 <= i < 16 implies bytes_of_hex(h)[i] == bytes[i] by {
        lemma_hex_digit_val((bytes[i] / 16) as int);
        lemma_hex_digit_val((bytes[i] % 16) as int);
        assert((2 * i) / 2 == i);
        assert((2 * i + 1) / 2 == i);
        assert(h[2 * i] == hex_digit((bytes[i] / 16) as int));
        assert(h[2 * i + 1] == hex_digit((bytes[i] % 16) as int));
        assert(16 * (bytes[i] / 16) + bytes[i] % 16 == bytes[i]);
    }
    assert(bytes_of_hex(h) =~= bytes);
}

impl PartialEq for UniqueId {
    fn eq(&self, other: &Self) -> (r: bool) {
        let mut i: usize = 0;
        while i < 16
            invariant
                i <= 16,
                forall|j: int| 0 <= j < i ==> self.0@[j] == other.0@[j],
            decreases 16 - i,
        {
            if self.0[i] != other.0[i] {
                return false;
            }
            i += 1;
        }
        proof {
            assert(self.0@ =~= other.0@);
        }
        true
    }
}

impl vstd::std_specs::cmp::PartialEqSpecImpl for UniqueId {
    open spec fn obeys_eq_spec() -> bool {
        true
    }

    open spec fn eq_spec(&self, other: &Self) -> bool {
        self@ == other@
    }
}

impl Eq for UniqueId {}

} // verus!
