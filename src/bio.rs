//! A short text about a person.
use crate::text::{
    decimal, decimal_text, is_match, lemma_trimmed_idempotent, matches_pattern, trim_text, trimmed,
    BIO_CHARS,
};
use vstd::prelude::*;

verus! {

pub const BIO_MIN_LENGTH: usize = 10;

pub const BIO_MAX_LENGTH: usize = 160;

/// The rule that a bio breaks.
#[derive(Debug, Clone, Copy, PartialEq, Eq, PartialOrd, Ord, Hash, Structural)]
pub enum BioError {
    Empty,
    TooLong(usize),
    TooShort(usize),
    InvalidCharacters,
}

impl BioError {
    /// The text that describes the broken rule.
    pub open spec fn describe(&self) -> Seq<char> {
        match self {
            BioError::Empty => "Bio cannot be empty"@,
            BioError::TooLong(n) => "Bio is too long (maximum "@ + decimal(*n as nat)
                + " characters)"@,
            BioError::TooShort(n) => "Bio is too short (minimum "@ + decimal(*n as nat)
                + " characters)"@,
            BioError::InvalidCharacters =>
                "Bio contains invalid characters (only letters, numbers, white space, dots, underscores and hyphens are allowed)"@,
        }
    }

    pub fn message(&self) -> (r: String)
        ensures
            r@ == self.describe(),
    {
        match self {
            BioError::Empty => "Bio cannot be empty".to_owned(),
            BioError::TooLong(n) => "Bio is too long (maximum ".to_owned().concat(
                decimal_text(*n).as_str(),
            ).concat(" characters)"),
            BioError::TooShort(n) => "Bio is too short (minimum ".to_owned().concat(
                decimal_text(*n).as_str(),
            ).concat(" characters)"),
            BioError::InvalidCharacters =>
                "Bio contains invalid characters (only letters, numbers, white space, dots, underscores and hyphens are allowed)".to_owned(),
        }
    }
}

/// The first rule that the trimmed text `t` breaks, in the order: empty, too short,
/// too long, character class.
pub open spec fn bio_rule(t: Seq<char>, chars_ok: bool) -> Result<
    (),
    BioError,
> {
    if t.len() == 0 {
        Err(BioError::Empty)
    } else if t.len() < BIO_MIN_LENGTH {
        Err(BioError::TooShort(BIO_MIN_LENGTH))
    } else if t.len() > BIO_MAX_LENGTH {
        Err(BioError::TooLong(BIO_MAX_LENGTH))
    } else if !chars_ok {
        Err(BioError::InvalidCharacters)
    } else {
        Ok(())
    }
}

/// What validating `s` as a bio gives: the trimmed text, or the rule it breaks.
pub open spec fn bio_outcome(s: Seq<char>) -> Result<Seq<char>, BioError> {
    let t = trimmed(s);
    match bio_rule(t, matches_pattern(BIO_CHARS@, t)) {
        Ok(_) => Ok(t),
        Err(e) => Err(e),
    }
}

/// A trimmed bio that keeps every rule.
#[derive(Debug, Eq, PartialOrd, Ord)]
pub struct Bio(String);

impl View for Bio {
    type V = Seq<char>;

    closed spec fn view(&self) -> Seq<char> {
        self.0@
    }
}

/// Whether `r` is what validating `s` gives: the value object holding the trimmed text, or
/// the rule that `s` breaks.
pub open spec fn bio_result(s: Seq<char>, r: Result<Bio, BioError>) -> bool {
    match r {
        Ok(v) => bio_outcome(s) == Ok::<Seq<char>, BioError>(v@),
        Err(e) => bio_outcome(s) == Err::<Seq<char>, BioError>(e),
    }
}

impl Bio {
    #[verifier::type_invariant]
    spec fn valid(&self) -> bool {
        bio_outcome(self.0@) == Ok::<Seq<char>, BioError>(self.0@)
    }

    /// Checks the trimmed text `t`, given whether it is made of the characters a bio allows.
    pub fn check_trimmed(t: &str, chars_ok: bool) -> (r: Result<
        (),
        BioError,
    >)
        ensures
            r == bio_rule(t@, chars_ok),
    {
        let n = t.unicode_len();
        if n == 0 {
            Err(BioError::Empty)
        } else if n < BIO_MIN_LENGTH {
            Err(BioError::TooShort(BIO_MIN_LENGTH))
        } else if n > BIO_MAX_LENGTH {
            Err(BioError::TooLong(BIO_MAX_LENGTH))
        } else if !chars_ok {
            Err(BioError::InvalidCharacters)
        } else {
            Ok(())
        }
    }

    /// Trims `value` and validates it.
    pub fn try_new(value: String) -> (r: Result<Bio, BioError>)
        ensures
            bio_result(value@, r),
    {
        let t = trim_text(value.as_str());
        // the pattern is consulted last: match it only once every other rule holds
        if let Err(e) = Self::check_trimmed(t, true) {
            return Err(e);
        }
        let chars_ok = is_match(BIO_CHARS, t);
        match Self::check_trimmed(t, chars_ok) {
            Ok(()) => {
                proof {
                    lemma_trimmed_idempotent(value@);
                }
                Ok(Bio(t.to_owned()))
            },
            Err(e) => Err(e),
        }
    }

    pub fn into_inner(self) -> (r: String)
        ensures
            r@ == self@,
            bio_outcome(r@) == Ok::<Seq<char>, BioError>(r@),
    {
        proof {
            use_type_invariant(&self);
        }
        self.0
    }

    pub fn as_ref(&self) -> (r: &str)
        ensures
            r@ == self@,
            bio_outcome(r@) == Ok::<Seq<char>, BioError>(r@),
    {
        proof {
            use_type_invariant(self);
        }
        self.0.as_str()
    }

    /// The bio as text.
    pub fn to_string(&self) -> (r: String)
        ensures
            r@ == self@,
            bio_outcome(r@) == Ok::<Seq<char>, BioError>(r@),
    {
        proof {
            use_type_invariant(self);
        }
        self.0.clone()
    }
}

impl PartialEq for Bio {
    fn eq(&self, other: &Bio) -> (r: bool) {
        self.0 == other.0
    }
}

impl vstd::std_specs::cmp::PartialEqSpecImpl for Bio {
    open spec fn obeys_eq_spec() -> bool {
        true
    }

    open spec fn eq_spec(&self, other: &Bio) -> bool {
        self@ == other@
    }
}

impl Clone for Bio {
    fn clone(&self) -> (r: Bio)
        ensures
            r@ == self@,
    {
        proof {
            use_type_invariant(self);
        }
        Bio(self.0.clone())
    }
}

impl TryFrom<&str> for Bio {
    type Error = BioError;

    fn try_from(value: &str) -> (r: Result<Bio, BioError>)
        ensures
            bio_result(value@, r),
    {
        Bio::try_new(value.to_owned())
    }
}

impl vstd::std_specs::convert::TryFromSpecImpl<&str> for Bio {
    open spec fn obeys_try_from_spec() -> bool {
        false
    }

    open spec fn try_from_spec(v: &str) -> Result<Bio, BioError> {
        arbitrary()
    }
}

impl TryFrom<String> for Bio {
    type Error = BioError;

    fn try_from(value: String) -> (r: Result<Bio, BioError>)
        ensures
            bio_result(value@, r),
    {
        Bio::try_new(value)
    }
}

impl vstd::std_specs::convert::TryFromSpecImpl<String> for Bio {
    open spec fn obeys_try_from_spec() -> bool {
        false
    }

    open spec fn try_from_spec(v: String) -> Result<Bio, BioError> {
        arbitrary()
    }
}

} // verus!
