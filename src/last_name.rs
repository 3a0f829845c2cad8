//! A person's last name.
use crate::text::{
    check_edges, decimal, decimal_text, edges_alphanumeric, is_match, lemma_trimmed_idempotent,
    matches_pattern, trim_text, trimmed, NAME_CHARS,
};
use vstd::prelude::*;

verus! {

pub const LAST_NAME_MIN_LENGTH: usize = 2;

pub const LAST_NAME_MAX_LENGTH: usize = 25;

/// The rule that a last name breaks.
#[derive(Debug, Clone, Copy, PartialEq, Eq, PartialOrd, Ord, Hash, Structural)]
pub enum LastNameError {
    Empty,
    ToLong(usize),
    ToShort(usize),
    InvalidCharacters,
    InvalidEdgeCharacters,
}

impl LastNameError {
    /// The text that describes the broken rule.
    pub open spec fn describe(&self) -> Seq<char> {
        match self {
            LastNameError::Empty => "Last name cannot be empty"@,
            LastNameError::ToLong(n) => "Last name is too long (maximum "@ + decimal(*n as nat)
                + " characters)"@,
            LastNameError::ToShort(n) => "Last name is too short (minimum "@ + decimal(*n as nat)
                + " characters)"@,
            LastNameError::InvalidCharacters =>
                "Last name contains invalid characters (only letters, white space and hyphens are allowed)"@,
            LastNameError::InvalidEdgeCharacters =>
                "Last name cannot start or end with a special character"@,
        }
    }

    pub fn message(&self) -> (r: String)
        ensures
            r@ == self.describe(),
    {
        match self {
            LastNameError::Empty => "Last name cannot be empty".to_owned(),
            LastNameError::ToLong(n) => "Last name is too long (maximum ".to_owned().concat(
                decimal_text(*n).as_str(),
            ).concat(" characters)"),
            LastNameError::ToShort(n) => "Last name is too short (minimum ".to_owned().concat(
                decimal_text(*n).as_str(),
            ).concat(" characters)"),
            LastNameError::InvalidCharacters =>
                "Last name contains invalid characters (only letters, white space and hyphens are allowed)".to_owned(),
            LastNameError::InvalidEdgeCharacters =>
                "Last name cannot start or end with a special character".to_owned(),
        }
    }
}

/// The first rule that the trimmed text `t` breaks, in the order: empty, too short,
/// too long, edge characters, character class.
pub open spec fn last_name_rule(t: Seq<char>, edges_ok: bool, chars_ok: bool) -> Result<
    (),
    LastNameError,
> {
    if t.len() == 0 {
        Err(LastNameError::Empty)
    } else if t.len() < LAST_NAME_MIN_LENGTH {
        Err(LastNameError::ToShort(LAST_NAME_MIN_LENGTH))
    } else if t.len() > LAST_NAME_MAX_LENGTH {
        Err(LastNameError::ToLong(LAST_NAME_MAX_LENGTH))
    } else if !edges_ok {
        Err(LastNameError::InvalidEdgeCharacters)
    } else if !chars_ok {
        Err(LastNameError::InvalidCharacters)
    } else {
        Ok(())
    }
}

/// What validating `s` as a last name gives: the trimmed text, or the rule it breaks.
pub open spec fn last_name_outcome(s: Seq<char>) -> Result<Seq<char>, LastNameError> {
    let t = trimmed(s);
    match last_name_rule(t, edges_alphanumeric(t), matches_pattern(NAME_CHARS@, t)) {
        Ok(_) => Ok(t),
        Err(e) => Err(e),
    }
}

/// A trimmed last name that keeps every rule.
#[derive(Debug, Eq, PartialOrd, Ord)]
pub struct LastName(String);

impl View for LastName {
    type V = Seq<char>;

    closed spec fn view(&self) -> Seq<char> {
        self.0@
    }
}

/// Whether `r` is what validating `s` gives: the value object holding the trimmed text, or
/// the rule that `s` breaks.
pub open spec fn last_name_result(s: Seq<char>, r: Result<LastName, LastNameError>) -> bool {
    match r {
        Ok(v) => last_name_outcome(s) == Ok::<Seq<char>, LastNameError>(v@),
        Err(e) => last_name_outcome(s) == Err::<Seq<char>, LastNameError>(e),
    }
}

impl LastName {
    #[verifier::type_invariant]
    spec fn valid(&self) -> bool {
        last_name_outcome(self.0@) == Ok::<Seq<char>, LastNameError>(self.0@)
    }

    /// Checks the trimmed text `t`, given whether its edge characters are alphanumeric and
    /// whether it is made of name characters.
    pub fn check_trimmed(t: &str, edges_ok: bool, chars_ok: bool) -> (r: Result<
        (),
        LastNameError,
    >)
        ensures
            r == last_name_rule(t@, edges_ok, chars_ok),
    {
        let n = t.unicode_len();
        if n == 0 {
            Err(LastNameError::Empty)
        } else if n < LAST_NAME_MIN_LENGTH {
            Err(LastNameError::ToShort(LAST_NAME_MIN_LENGTH))
        } else if n > LAST_NAME_MAX_LENGTH {
            Err(LastNameError::ToLong(LAST_NAME_MAX_LENGTH))
        } else if !edges_ok {
            Err(LastNameError::InvalidEdgeCharacters)
        } else if !chars_ok {
            Err(LastNameError::InvalidCharacters)
        } else {
            Ok(())
        }
    }

    /// Trims `value` and validates it.
    pub fn try_new(value: String) -> (r: Result<LastName, LastNameError>)
        ensures
            last_name_result(value@, r),
    {
        let t = trim_text(value.as_str());
        let edges_ok = check_edges(t);
        // the pattern is consulted last: match it only once every other rule holds
        if let Err(e) = Self::check_trimmed(t, edges_ok, true) {
            return Err(e);
        }
        let chars_ok = is_match(NAME_CHARS, t);
        match Self::check_trimmed(t, edges_ok, chars_ok) {
            Ok(()) => {
                proof {
                    lemma_trimmed_idempotent(value@);
                }
                Ok(LastName(t.to_owned()))
            },
            Err(e) => Err(e),
        }
    }

    pub fn into_inner(self) -> (r: String)
        ensures
            r@ == self@,
            last_name_outcome(r@) == Ok::<Seq<char>, LastNameError>(r@),
    {
        proof {
            use_type_invariant(&self);
        }
        self.0
    }

    pub fn as_ref(&self) -> (r: &str)
        ensures
            r@ == self@,
            last_name_outcome(r@) == Ok::<Seq<char>, LastNameError>(r@),
    {
        proof {
            use_type_invariant(self);
        }
        self.0.as_str()
    }

    /// The name as text.
    pub fn to_string(&self) -> (r: String)
        ensures
            r@ == self@,
            last_name_outcome(r@) == Ok::<Seq<char>, LastNameError>(r@),
    {
        proof {
            use_type_invariant(self);
        }
        self.0.clone()
    }
}

impl PartialEq for LastName {
    fn eq(&self, other: &LastName) -> (r: bool) {
        self.0 == other.0
    }
}

impl vstd::std_specs::cmp::PartialEqSpecImpl for LastName {
    open spec fn obeys_eq_spec() -> bool {
        true
    }

    open spec fn eq_spec(&self, other: &LastName) -> bool {
        self@ == other@
    }
}

impl Clone for LastName {
    fn clone(&self) -> (r: LastName)
        ensures
            r@ == self@,
    {
        proof {
            use_type_invariant(self);
        }
        LastName(self.0.clone())
    }
}

impl TryFrom<&str> for LastName {
    type Error = LastNameError;

    fn try_from(value: &str) -> (r: Result<LastName, LastNameError>)
        ensures
            last_name_result(value@, r),
    {
        LastName::try_new(value.to_owned())
    }
}

impl vstd::std_specs::convert::TryFromSpecImpl<&str> for LastName {
    open spec fn obeys_try_from_spec() -> bool {
        false
    }

    open spec fn try_from_spec(v: &str) -> Result<LastName, LastNameError> {
        arbitrary()
    }
}

impl TryFrom<String> for LastName {
    type Error = LastNameError;

    fn try_from(value: String) -> (r: Result<LastName, LastNameError>)
        ensures
            last_name_result(value@, r),
    {
        LastName::try_new(value)
    }
}

impl vstd::std_specs::convert::TryFromSpecImpl<String> for LastName {
    open spec fn obeys_try_from_spec() -> bool {
        false
    }

    open spec fn try_from_spec(v: String) -> Result<LastName, LastNameError> {
        arbitrary()
    }
}

} // verus!
