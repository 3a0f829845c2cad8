//! The identity of a profile: a UUID, held as its 128-bit value.
use vstd::prelude::*;

verus! {

#[verifier::external_type_specification]
#[verifier::external_body]
pub struct ExUuidError(uuid::Error);

/// The 128-bit value of the UUID that `uuid::Uuid::parse_str` reads from `s`, or `None`
/// where it refuses `s`.
pub uninterp spec fn uuid_parse(s: Seq<char>) -> Option<u128>;

/// Relies on `uuid::Uuid::parse_str`; the value is taken out with `Uuid::as_u128`. The
/// parser accepts only ASCII texts of 32, 36, 38 or 45 bytes.
#[verifier::external_body]
fn parse_uuid(s: &str) -> (r: Result<u128, uuid::Error>)
    ensures
        match r {
            Ok(v) => uuid_parse(s@) == Some(v) && 32 <= s@.len() <= 45,
            Err(_) => uuid_parse(s@) is None,
        },
{
    match uuid::Uuid::parse_str(s) {
        Ok(u) => Ok(u.as_u128()),
        Err(e) => Err(e),
    }
}

/// Relies on the `Display` of `uuid::Error`, for the reason a text was refused.
#[verifier::external_body]
fn uuid_error_text(e: &uuid::Error) -> String {
    e.to_string()
}

/// Relies on `uuid::Uuid::now_v7`: a version 7 UUID, of the RFC 9562 variant, from the
/// clock and random bits.
#[verifier::external_body]
fn new_v7() -> (r: u128)
    ensures
        (r >> 76u128) & 0xfu128 == 7,
        (r >> 62u128) & 3u128 == 2,
{
    uuid::Uuid::now_v7().as_u128()
}

/// The lower-case hexadecimal digit for `d`, below 16.
pub open spec fn hex_char(d: u128) -> char {
    seq!['0', '1', '2', '3', '4', '5', '6', '7', '8', '9', 'a', 'b', 'c', 'd', 'e', 'f'][d as int]
}

/// The `i`-th of the 32 hexadecimal digits of `v`, most significant first.
pub open spec fn nibble(v: u128, i: int) -> u128 {
    (v >> ((4 * (31 - i)) as u128)) & 0xfu128
}

/// The hyphenated lower-case text of the UUID with value `v`: its 32 hexadecimal digits in
/// groups of 8, 4, 4, 4 and 12, joined by `-`.
pub open spec fn uuid_text(v: u128) -> Seq<char> {
    let h = Seq::new(32, |i: int| hex_char(nibble(v, i)));
    h.subrange(0, 8) + seq!['-'] + h.subrange(8, 12) + seq!['-'] + h.subrange(12, 16) + seq![
        '-',
    ] + h.subrange(16, 20) + seq!['-'] + h.subrange(20, 32)
}

/// Relies on `uuid::Uuid::from_u128` and the `Display` of `uuid::Uuid`, which writes the
/// hyphenated lower-case form.
#[verifier::external_body]
fn format_uuid(v: u128) -> (r: String)
    ensures
        r@ == uuid_text(v),
{
    uuid::Uuid::from_u128(v).to_string()
}

/// Why a text is not a UUID.
#[derive(Debug, Clone, PartialEq, Eq, PartialOrd, Ord)]
pub enum IdError {
    Invalid(String),
}

impl IdError {
    /// The text that describes the refusal.
    pub open spec fn describe(&self) -> Seq<char> {
        match self {
            IdError::Invalid(reason) => "invalid id: "@ + reason@,
        }
    }

    pub fn message(&self) -> (r: String)
        ensures
            r@ == self.describe(),
    {
        match self {
            IdError::Invalid(reason) => "invalid id: ".to_owned().concat(reason.as_str()),
        }
    }
}

/// A UUID; equality and order are those of its 128-bit value, which are those of the UUID.
#[derive(Debug, Clone, Copy, PartialEq, Eq, PartialOrd, Ord, Hash, Structural)]
pub struct Id(u128);

impl View for Id {
    type V = u128;

    closed spec fn view(&self) -> u128 {
        self.0
    }
}

impl Id {
    /// Reads a UUID from `id_str`.
    pub fn from_str(id_str: &str) -> (r: Result<Id, IdError>)
        ensures
            match r {
                Ok(id) => uuid_parse(id_str@) == Some(id@) && 32 <= id_str@.len() <= 45,
                Err(_) => uuid_parse(id_str@) is None,
            },
    {
        match parse_uuid(id_str) {
            Ok(v) => Ok(Id(v)),
            Err(e) => Err(IdError::Invalid(uuid_error_text(&e))),
        }
    }

    /// A new time-ordered UUID, of version 7 and the RFC 9562 variant.
    pub fn generate() -> (r: Id)
        ensures
            (r@ >> 76u128) & 0xfu128 == 7,
            (r@ >> 62u128) & 3u128 == 2,
    {
        Id(new_v7())
    }

    pub fn from_uuid(uuid: u128) -> (r: Id)
        ensures
            r@ == uuid,
    {
        Id(uuid)
    }

    pub fn into_inner(&self) -> (r: u128)
        ensures
            r == self@,
    {
        self.0
    }

    pub fn as_ref(&self) -> (r: &u128)
        ensures
            *r == self@,
    {
        &self.0
    }

    /// The hyphenated lower-case form of the UUID.
    pub fn to_string(&self) -> (r: String)
        ensures
            r@ == uuid_text(self@),
    {
        format_uuid(self.0)
    }
}

impl TryFrom<String> for Id {
    type Error = IdError;

    fn try_from(value: String) -> (r: Result<Id, IdError>)
        ensures
            match r {
                Ok(id) => uuid_parse(value@) == Some(id@) && 32 <= value@.len() <= 45,
                Err(_) => uuid_parse(value@) is None,
            },
    {
        Id::from_str(value.as_str())
    }
}

impl vstd::std_specs::convert::TryFromSpecImpl<String> for Id {
    open spec fn obeys_try_from_spec() -> bool {
        false
    }

    open spec fn try_from_spec(v: String) -> Result<Id, IdError> {
        arbitrary()
    }
}

} // verus!
