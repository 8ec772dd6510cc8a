//! Identifiers: the opaque session id and the human-facing room code.

use vstd::prelude::*;
use vstd::string::*;

verus! {

/// The sixteen lowercase hexadecimal digits, by value.
pub open spec fn hex_digit(d: int) -> char {
    "0123456789abcdef"@[d]
}

/// The `k`-th group of four bits of `v`, counted from the most significant.
pub open spec fn nibble(v: u128, k: int) -> int {
    (v as int / vstd::arithmetic::power::pow(16, (31 - k) as nat)) % 16
}

/// How many hyphens stand before position `i` of the 36-character form.
pub open spec fn hyphens_before(i: int) -> int {
    if i < 8 {
        0
    } else if i < 13 {
        1
    } else if i < 18 {
        2
    } else if i < 23 {
        3
    } else {
        4
    }
}

/// The canonical text of a 128-bit identifier: 32 lowercase hexadecimal
/// digits, most significant first, in groups of 8, 4, 4, 4 and 12 that are
/// separated by hyphens.
pub open spec fn hyphenated(v: u128) -> Seq<char> {
    Seq::new(
        36,
        |i: int|
            if i == 8 || i == 13 || i == 18 || i == 23 {
                '-'
            } else {
                hex_digit(nibble(v, i - hyphens_before(i)))
            },
    )
}

/// The bits that mark a 128-bit value as a randomly generated identifier:
/// version 4 in the thirteenth hexadecimal digit, and `10` as the two top
/// bits of the seventeenth.
pub open spec fn is_random_id(v: u128) -> bool {
    v & 0x0000_0000_0000_f000_c000_0000_0000_0000u128
        == 0x0000_0000_0000_4000_8000_0000_0000_0000u128
}

/// Calls `uuid::Uuid::new_v4` and hands its 128 bits out with
/// `Uuid::as_u128`. The bits are random but for the six that `new_v4` fixes
/// to mark version and variant; nothing else is claimed of them.
#[verifier::external_body]
fn random_id_bits() -> (v: u128)
    ensures
        is_random_id(v),
{
    uuid::Uuid::new_v4().as_u128()
}

/// Calls `uuid::Uuid::from_u128` and the `Display` of `Uuid`, which writes
/// the lowercase hyphenated form.
#[verifier::external_body]
fn id_text(v: u128) -> (text: String)
    ensures
        text@ == hyphenated(v),
{
    uuid::Uuid::from_u128(v).to_string()
}

/// Identifier of one connected session.
///
/// Equality is exact identity of the 128 bits.
#[derive(Debug, Clone, Copy, PartialEq, Eq, Hash, Structural)]
pub struct ClientId(pub u128);

impl ClientId {
    /// A fresh random identifier.
    pub fn new() -> (id: Self)
        ensures
            is_random_id(id.0),
    {
        ClientId(random_id_bits())
    }

    /// The identifier as clients see it: an opaque string.
    pub fn to_string(&self) -> (text: String)
        ensures
            text@ == hyphenated(self.0),
    {
        id_text(self.0)
    }
}

impl Default for ClientId {
    fn default() -> (id: Self)
        ensures
            is_random_id(id.0),
    {
        ClientId::new()
    }
}

/// The canonical spelling of a room code as typed by a user: its uppercase
/// equivalent under Unicode's case mapping.
pub uninterp spec fn uppercase_of(s: Seq<char>) -> Seq<char>;

/// `str::to_uppercase` returns the uppercase equivalent of the slice as a new
/// `String`; the result depends on the characters alone.
pub assume_specification[ str::to_uppercase ](s: &str) -> (upper: String)
    ensures
        upper@ == uppercase_of(s@),
;

/// `String::push` appends one character at the end.
pub assume_specification[ String::push ](s: &mut String, c: char)
    ensures
        final(s)@ == old(s)@.push(c),
;

/// Whether `b` is an ASCII letter or digit.
pub open spec fn is_alphanumeric_byte(b: u8) -> bool {
    (0x30 <= b <= 0x39) || (0x41 <= b <= 0x5a) || (0x61 <= b <= 0x7a)
}

/// Draws one byte from `rand::distributions::Alphanumeric` with the thread's
/// generator (`rand::thread_rng`, `Rng::sample`). The distribution ranges
/// over the ASCII letters and digits; which one comes is left open.
#[verifier::external_body]
fn random_alphanumeric() -> (b: u8)
    ensures
        is_alphanumeric_byte(b),
{
    rand::Rng::sample(&mut rand::thread_rng(), rand::distributions::Alphanumeric)
}

/// Whether `c` may stand in a room code: an uppercase ASCII letter or a digit.
pub open spec fn is_code_char(c: char) -> bool {
    ('A' <= c <= 'Z') || ('0' <= c <= '9')
}

/// Whether `s` has the form of a generated room code: six characters, each an
/// uppercase ASCII letter or a digit.
pub open spec fn is_room_code(s: Seq<char>) -> bool {
    &&& s.len() == ROOM_CODE_LEN
    &&& forall|i: int| 0 <= i < s.len() ==> is_code_char(#[trigger] s[i])
}

/// Number of characters in a generated room code.
pub const ROOM_CODE_LEN: usize = 6;

/// The uppercase form of an ASCII letter; any other byte unchanged.
fn ascii_upper(b: u8) -> (u: u8)
    ensures
        u == if 0x61 <= b <= 0x7a {
            b - 0x20
        } else {
            b as int
        },
{
    if 0x61 <= b && b <= 0x7a {
        b - 0x20
    } else {
        b
    }
}

/// Invite token of a room.
///
/// Generated codes are six uppercase alphanumeric characters; a code typed
/// by a user is brought to uppercase first, so lookups ignore case.
#[derive(Debug, Clone, PartialEq, Eq, Hash)]
pub struct RoomCode(pub String);

impl View for RoomCode {
    type V = Seq<char>;

    open spec fn view(&self) -> Seq<char> {
        self.0@
    }
}

impl RoomCode {
    /// A random code of six uppercase alphanumeric characters.
    pub fn generate() -> (code: Self)
        ensures
            is_room_code(code@),
    {
        let mut text = String::new();
        let mut i: usize = 0;
        while i < ROOM_CODE_LEN
            invariant
                i <= ROOM_CODE_LEN,
                text@.len() == i,
                forall|j: int| 0 <= j < i ==> is_code_char(#[trigger] text@[j]),
            decreases ROOM_CODE_LEN - i,
        {
            let b = ascii_upper(random_alphanumeric());
            text.push(b as char);
            i += 1;
        }
        RoomCode(text)
    }

    /// The code that a user typed, in canonical (uppercase) spelling.
    pub fn from_string(code: String) -> (canonical: Self)
        ensures
            canonical@ == uppercase_of(code@),
    {
        RoomCode(code.as_str().to_uppercase())
    }

    /// The code as text.
    pub fn to_string(&self) -> (text: String)
        ensures
            text@ == self@,
    {
        self.0.clone()
    }

    /// Whether the code has the form of a generated one.
    pub fn is_canonical(&self) -> (b: bool)
        ensures
            b == is_room_code(self@),
    {
        let s = self.0.as_str();
        if s.unicode_len() != ROOM_CODE_LEN {
            return false;
        }
        let mut i: usize = 0;
        while i < ROOM_CODE_LEN
            invariant
                i <= ROOM_CODE_LEN,
                s@ == self@,
                s@.len() == ROOM_CODE_LEN,
                forall|j: int| 0 <= j < i ==> is_code_char(#[trigger] s@[j]),
            decreases ROOM_CODE_LEN - i,
        {
            let c = s.get_char(i);
            if !(('A' <= c && c <= 'Z') || ('0' <= c && c <= '9')) {
                return false;
            }
            i += 1;
        }
        true
    }
}

} // verus!
