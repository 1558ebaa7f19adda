//! `AnId`: a 128 bit identifier, unique across all systems that use it.
//! Its text form is the lower case, hyphenated UUID form.
use vstd::prelude::*;

verus! {

/// The character of a hex digit, lower case.
pub open spec fn hex_lower(d: int) -> char {
    if d < 10 {
        (48 + d) as char
    } else {
        (87 + d) as char
    }
}

/// The `k`-th hex digit of `v`, counted from the most significant one.
pub open spec fn hex_digit(v: u128, k: int) -> int {
    ((v >> ((124 - 4 * k) as u128)) & 15u128) as int
}

/// How many hyphens precede position `i` of the hyphenated form.
pub open spec fn hyphens_before(i: int) -> int {
    if i <= 8 {
        0
    } else if i <= 13 {
        1
    } else if i <= 18 {
        2
    } else if i <= 23 {
        3
    } else {
        4
    }
}

/// Is position `i` of the hyphenated form a hyphen.
pub open spec fn is_hyphen_pos(i: int) -> bool {
    i == 8 || i == 13 || i == 18 || i == 23
}

/// The hyphenated text form of a 128 bit id: 32 lower case hex digits, most
/// significant first, in groups of 8-4-4-4-12 separated by hyphens.
pub open spec fn uuid_str(v: u128) -> Seq<char> {
    Seq::new(
        36,
        |i: int|
            if is_hyphen_pos(i) {
                '-'
            } else {
                hex_lower(hex_digit(v, i - hyphens_before(i)))
            },
    )
}

/// The length of the text form of an id.
pub const ID_STR_LEN: usize = 36;

/// Every character of the text form of an id is ASCII.
pub proof fn lemma_uuid_str_is_ascii(v: u128)
    ensures
        uuid_str(v).len() == 36,
        vstd::utf8::is_ascii_chars(uuid_str(v)),
{
    assert forall|i: int| 0 <= i < uuid_str(v).len() implies '\0' <= #[trigger] uuid_str(v)[i]
        <= '\u{7f}' by {
        let d = hex_digit(v, i - hyphens_before(i));
        assert(0 <= d < 16) by {
            let s = (124 - 4 * (i - hyphens_before(i))) as u128;
            assert((v >> s) & 15u128 <= 15u128) by (bit_vector);
        }
    }
}

/// The version and variant bits of a random (version 4, RFC 4122 variant)
/// UUID: the version nibble is 4 and the two variant bits are `10`.
pub open spec fn is_random_uuid(v: u128) -> bool {
    &&& (v >> 76u128) & 15u128 == 4u128
    &&& (v >> 62u128) & 3u128 == 2u128
}

/// A random id through `uuid::Uuid::new_v4` and `as_u128`. `new_v4` masks
/// random bits and sets the version to 4 and the variant to RFC 4122; only
/// those bits are claimed, the others depend on a random source.
#[verifier::external_body]
fn uuid_new_v4_u128() -> (v: u128)
    ensures
        is_random_uuid(v),
{
    uuid::Uuid::new_v4().as_u128()
}

/// The value of `uuid::Uuid::nil()`, through `as_u128`: every bit is zero.
#[verifier::external_body]
fn uuid_nil_u128() -> (v: u128)
    ensures
        v == 0,
{
    uuid::Uuid::nil().as_u128()
}

/// The text of `uuid::Uuid::from_u128(v)` through its `Display` impl: the
/// lower case hyphenated form, whose bytes are the big endian digits of `v`.
#[verifier::external_body]
fn uuid_hyphenated_string(v: u128) -> (s: String)
    ensures
        s@ == uuid_str(v),
{
    uuid::Uuid::from_u128(v).to_string()
}

/// A 128 bit identifier.
#[derive(Clone, Copy, PartialEq, Eq, Hash, Debug, Structural)]
pub struct AnId(pub u128);

impl AnId {
    /// A new random id: a version 4 UUID.
    pub fn new() -> (id: AnId)
        ensures
            is_random_uuid(id.0),
    {
        AnId(uuid_new_v4_u128())
    }

    /// The id with the value `id`.
    pub fn from(id: u128) -> (r: AnId)
        ensures
            r.0 == id,
    {
        AnId(id)
    }

    /// The id whose bits are all zero.
    pub fn nil() -> (r: AnId)
        ensures
            r.0 == 0,
    {
        AnId(uuid_nil_u128())
    }

    /// The hyphenated text form of the id.
    pub fn to_string(&self) -> (s: String)
        ensures
            s@ == uuid_str(self.0),
    {
        uuid_hyphenated_string(self.0)
    }

    /// The first 8 characters of the text form of the id.
    pub fn to_short_string(&self) -> (s: String)
        ensures
            s@ == uuid_str(self.0).subrange(0, 8),
    {
        let full = self.to_string();
        proof {
            lemma_uuid_str_is_ascii(self.0);
        }
        let short = full.as_str().substring_ascii(0, 8);
        String::from_str(short)
    }
}

} // verus!
