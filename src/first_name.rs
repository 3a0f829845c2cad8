//! A person's first name.
use crate::text::{
    check_edges, decimal, decimal_text, edges_alphanumeric, is_match, lemma_trimmed_idempotent,
    matches_pattern, trim_text, trimmed, NAME_CHARS,
};
use vstd::prelude::*;

verus! {

pub const FIRST_NAME_MIN_LENGTH: usize = 2;

pub const FIRST_NAME_MAX_LENGTH: usize = 15;

/// The rule that a first name breaks.
#[derive(Debug, Clone, Copy, PartialEq, Eq, PartialOrd, Ord, Hash, Structural)]
pub enum FirstNameError {
    Empty,
    ToLong(usize),
    ToShort(usize),
    InvalidCharacters,
    InvalidEdgeCharacters,
}

impl FirstNameError {
    /// The text that describes the broken rule.
    pub open spec fn describe(&self) -> Seq<char> {
        match self {
            FirstNameError::Empty => "First name cannot be empty"@,
            FirstNameError::ToLong(n) => "First name is too long (maximum "@ + decimal(*n as nat)
                + " characters)"@,
            FirstNameError::ToShort(n) => "First name is too short (minimum "@ + decimal(*n as nat)
                + " characters)"@,
            FirstNameError::InvalidCharacters =>
                "First name contains invalid characters (only letters, white space and hyphens are allowed)"@,
            FirstNameError::InvalidEdgeCharacters =>
                "First name cannot start or end with a special character"@,
        }
    }

    pub fn message(&self) -> (r: String)
        ensures
            r@ == self.describe(),
    {
        match self {
            FirstNameError::Empty => "First name cannot be empty".to_owned(),
            FirstNameError::ToLong(n) => "First name is too long (maximum ".to_owned().concat(
                decimal_text(*n).as_str(),
            ).concat(" characters)"),
            FirstNameError::ToShort(n) => "First name is too short (minimum ".to_owned().concat(
                decimal_text(*n).as_str(),
            ).concat(" characters)"),
            FirstNameError::InvalidCharacters =>
                "First name contains invalid characters (only letters, white space and hyphens are allowed)".to_owned(),
            FirstNameError::InvalidEdgeCharacters =>
                "First name cannot start or end with a special character".to_owned(),
        }
    }
}

/// The first rule that the trimmed text `t` breaks, in the order: empty, too short,
/// too long, edge characters, character class.
pub open spec fn first_name_rule(t: Seq<char>, edges_ok: bool, chars_ok: bool) -> Result<
    (),
    FirstNameError,
> {
    if t.len() == 0 {
        Err(FirstNameError::Empty)
    } else if t.len() < FIRST_NAME_MIN_LENGTH {
        Err(FirstNameError::ToShort(FIRST_NAME_MIN_LENGTH))
    } else if t.len() > FIRST_NAME_MAX_LENGTH {
        Err(FirstNameError::ToLong(FIRST_NAME_MAX_LENGTH))
    } else if !edges_ok {
        Err(FirstNameError::InvalidEdgeCharacters)
    } else if !chars_ok {
        Err(FirstNameError::InvalidCharacters)
    } else {
        Ok(())
    }
}

/// What validating `s` as a first name gives: the trimmed text, or the rule it breaks.
pub open spec fn first_name_outcome(s: Seq<char>) -> Result<Seq<char>, FirstNameError> {
    let t = trimmed(s);
    match first_name_rule(t, edges_alphanumeric(t), matches_pattern(NAME_CHARS@, t)) {
        Ok(_) => Ok(t),
        Err(e) => Err(e),
    }
}

/// A trimmed first name that keeps every rule.
#[derive(Debug, Eq, PartialOrd, Ord)]
pub struct FirstName(String);

impl View for FirstName {
    type V = Seq<char>;

    closed spec fn view(&self) -> Seq<char> {
        self.0@
    }
}

/// Whether `r` is what validating `s` gives: the value object holding the trimmed text, or
/// the rule that `s` breaks.
pub open spec fn first_name_result(s: Seq<char>, r: Result<FirstName, FirstNameError>) -> bool {
    match r {
        Ok(v) => first_name_outcome(s) == Ok::<Seq<char>, FirstNameError>(v@),
        Err(e) => first_name_outcome(s) == Err::<Seq<char>, FirstNameError>(e),
    }
}

impl FirstName {
    #[verifier::type_invariant]
    spec fn valid(&self) -> bool {
        first_name_outcome(self.0@) == Ok::<Seq<char>, FirstNameError>(self.0@)
    }

    /// Checks the trimmed text `t`, given whether its edge characters are alphanumeric and
    /// whether it is made of name characters.
    pub fn check_trimmed(t: &str, edges_ok: bool, chars_ok: bool) -> (r: Result<
        (),
        FirstNameError,
    >)
        ensures
            r == first_name_rule(t@, edges_ok, chars_ok),
    {
        let n = t.unicode_len();
        if n == 0 {
            Err(FirstNameError::Empty)
        } else if n < FIRST_NAME_MIN_LENGTH {
            Err(FirstNameError::ToShort(FIRST_NAME_MIN_LENGTH))
        } else if n > FIRST_NAME_MAX_LENGTH {
            Err(FirstNameError::ToLong(FIRST_NAME_MAX_LENGTH))
        } else if !edges_ok {
            Err(FirstNameError::InvalidEdgeCharacters)
        } else if !chars_ok {
            Err(FirstNameError::InvalidCharacters)
        } else {
            Ok(())
        }
    }

    /// Trims `value` and validates it.
    pub fn try_new(value: String) -> (r: Result<FirstName, FirstNameError>)
        ensures
            first_name_result(value@, r),
    {
        let t = trim_text(value.as_str());
        let edges_ok = check_edges(t);
        // the pattern is consulted last: match it only once every other rule holds
        if let Err(e) = Self::check_trimmed(t, edges_ok, true) {
            return Err(e);
        }
        let chars_ok = is_match(NAME_CHARS, t);
        match Self::check_trimmed(t, edges_ok, chars_ok) {
            Ok(()) => {
                proof {
                    lemma_trimmed_idempotent(value@);
                }
                Ok(FirstName(t.to_owned()))
            },
            Err(e) => Err(e),
        }
    }

    pub fn into_inner(self) -> (r: String)
        ensures
            r@ == self@,
            first_name_outcome(r@) == Ok::<Seq<char>, FirstNameError>(r@),
    {
        proof {
            use_type_invariant(&self);
        }
        self.0
    }

    pub fn as_ref(&self) -> (r: &str)
        ensures
            r@ == self@,
            first_name_outcome(r@) == Ok::<Seq<char>, FirstNameError>(r@),
    {
        proof {
            use_type_invariant(self);
        }
        self.0.as_str()
    }

    /// The name as text.
    pub fn to_string(&self) -> (r: String)
        ensures
            r@ == self@,
            first_name_outcome(r@) == Ok::<Seq<char>, FirstNameError>(r@),
    {
        proof {
            use_type_invariant(self);
        }
        self.0.clone()
    }
}

impl PartialEq for FirstName {
    fn eq(&self, other: &FirstName) -> (r: bool) {
        self.0 == other.0
    }
}

impl vstd::std_specs::cmp::PartialEqSpecImpl for FirstName {
    open spec fn obeys_eq_spec() -> bool {
        true
    }

    open spec fn eq_spec(&self, other: &FirstName) -> bool {
        self@ == other@
    }
}

impl Clone for FirstName {
    fn clone(&self) -> (r: FirstName)
        ensures
            r@ == self@,
    {
        proof {
            use_type_invariant(self);
        }
        FirstName(self.0.clone())
    }
}

impl TryFrom<&str> for FirstName {
    type Error = FirstNameError;

    fn try_from(value: &str) -> (r: Result<FirstName, FirstNameError>)
        ensures
            first_name_result(value@, r),
    {
        FirstName::try_new(value.to_owned())
    }
}

impl vstd::std_specs::convert::TryFromSpecImpl<&str> for FirstName {
    open spec fn obeys_try_from_spec() -> bool {
        false
    }

    open spec fn try_from_spec(v: &str) -> Result<FirstName, FirstNameError> {
        arbitrary()
    }
}

impl TryFrom<String> for FirstName {
    type Error = FirstNameError;

    fn try_from(value: String) -> (r: Result<FirstName, FirstNameError>)
        ensures
            first_name_result(value@, r),
    {
        FirstName::try_new(value)
    }
}

impl vstd::std_specs::convert::TryFromSpecImpl<String> for FirstName {
    open spec fn obeys_try_from_spec() -> bool {
        false
    }

    open spec fn try_from_spec(v: String) -> Result<FirstName, FirstNameError> {
        arbitrary()
    }
}

} // verus!
