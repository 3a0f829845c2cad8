//! An email address.
use crate::text::{
    decimal, decimal_text, is_match, lemma_trimmed_idempotent, matches_pattern, trim_text, trimmed,
    EMAIL_SHAPE,
};
use vstd::prelude::*;

verus! {

pub const EMAIL_MAX_LENGTH: usize = 255;

/// The rule that a email breaks.
#[derive(Debug, Clone, Copy, PartialEq, Eq, PartialOrd, Ord, Hash, Structural)]
pub enum EmailError {
    Emtpy,
    TooLong(usize),
    Invalid,
}

/// The first rule that the trimmed text `t` breaks, in the order: empty, too long, shape.
pub open spec fn email_rule(t: Seq<char>, shape_ok: bool) -> Result<
    (),
    EmailError,
> {
    if t.len() == 0 {
        Err(EmailError::Emtpy)
    } else if t.len() > EMAIL_MAX_LENGTH {
        Err(EmailError::TooLong(EMAIL_MAX_LENGTH))
    } else if !shape_ok {
        Err(EmailError::Invalid)
    } else {
        Ok(())
    }
}

impl EmailError {
    /// The text that describes the broken rule.
    pub open spec fn describe(&self) -> Seq<char> {
        match self {
            EmailError::Emtpy => "Email cannot be empty"@,
            EmailError::TooLong(n) => "Email is too long (maximum "@ + decimal(*n as nat)
                + " characters)"@,
            EmailError::Invalid => "Invalid email format (e.g., user@example.com)"@,
        }
    }

    pub fn message(&self) -> (r: String)
        ensures
            r@ == self.describe(),
    {
        match self {
            EmailError::Emtpy => "Email cannot be empty".to_owned(),
            EmailError::TooLong(n) => "Email is too long (maximum ".to_owned().concat(
                decimal_text(*n).as_str(),
            ).concat(" characters)"),
            EmailError::Invalid => "Invalid email format (e.g., user@example.com)".to_owned(),
        }
    }
}

/// What validating `s` as an email address gives: the trimmed text, or the rule it breaks.
pub open spec fn email_outcome(s: Seq<char>) -> Result<Seq<char>, EmailError> {
    let t = trimmed(s);
    match email_rule(t, matches_pattern(EMAIL_SHAPE@, t)) {
        Ok(_) => Ok(t),
        Err(e) => Err(e),
    }
}

/// A trimmed email address that keeps every rule.
#[derive(Debug, Eq, PartialOrd, Ord)]
pub struct Email(String);

impl View for Email {
    type V = Seq<char>;

    closed spec fn view(&self) -> Seq<char> {
        self.0@
    }
}

/// Whether `r` is what validating `s` gives: the value object holding the trimmed text, or
/// the rule that `s` breaks.
pub open spec fn email_result(s: Seq<char>, r: Result<Email, EmailError>) -> bool {
    match r {
        Ok(v) => email_outcome(s) == Ok::<Seq<char>, EmailError>(v@),
        Err(e) => email_outcome(s) == Err::<Seq<char>, EmailError>(e),
    }
}

impl Email {
    #[verifier::type_invariant]
    spec fn valid(&self) -> bool {
        email_outcome(self.0@) == Ok::<Seq<char>, EmailError>(self.0@)
    }

    /// Checks the trimmed text `t`, given whether it has the shape of an address.
    pub fn check_trimmed(t: &str, shape_ok: bool) -> (r: Result<
        (),
        EmailError,
    >)
        ensures
            r == email_rule(t@, shape_ok),
    {
        let n = t.unicode_len();
        if n == 0 {
            Err(EmailError::Emtpy)
        } else if n > EMAIL_MAX_LENGTH {
            Err(EmailError::TooLong(EMAIL_MAX_LENGTH))
        } else if !shape_ok {
            Err(EmailError::Invalid)
        } else {
            Ok(())
        }
    }

    /// Whether `email` has the shape of an address: a run, `@`, a run, a dot and a run, none
    /// of them holding white space or `@`.
    pub fn is_valid_email(email: &str) -> (r: bool)
        ensures
            r == matches_pattern(EMAIL_SHAPE@, email@),
    {
        is_match(EMAIL_SHAPE, email)
    }

    /// Trims `email` and validates it.
    pub fn new(email: String) -> (r: Result<Email, EmailError>)
        ensures
            email_result(email@, r),
    {
        let t = trim_text(email.as_str());
        // the pattern is consulted last: match it only once every other rule holds
        if let Err(e) = Self::check_trimmed(t, true) {
            return Err(e);
        }
        let shape_ok = Email::is_valid_email(t);
        match Self::check_trimmed(t, shape_ok) {
            Ok(()) => {
                proof {
                    lemma_trimmed_idempotent(email@);
                }
                Ok(Email(t.to_owned()))
            },
            Err(e) => Err(e),
        }
    }

    pub fn into_inner(self) -> (r: String)
        ensures
            r@ == self@,
            email_outcome(r@) == Ok::<Seq<char>, EmailError>(r@),
    {
        proof {
            use_type_invariant(&self);
        }
        self.0
    }

    pub fn as_ref(&self) -> (r: &str)
        ensures
            r@ == self@,
            email_outcome(r@) == Ok::<Seq<char>, EmailError>(r@),
    {
        proof {
            use_type_invariant(self);
        }
        self.0.as_str()
    }

    /// The address as text.
    pub fn to_string(&self) -> (r: String)
        ensures
            r@ == self@,
            email_outcome(r@) == Ok::<Seq<char>, EmailError>(r@),
    {
        proof {
            use_type_invariant(self);
        }
        self.0.clone()
    }
}

impl PartialEq for Email {
    fn eq(&self, other: &Email) -> (r: bool) {
        self.0 == other.0
    }
}

impl vstd::std_specs::cmp::PartialEqSpecImpl for Email {
    open spec fn obeys_eq_spec() -> bool {
        true
    }

    open spec fn eq_spec(&self, other: &Email) -> bool {
        self@ == other@
    }
}

impl Clone for Email {
    fn clone(&self) -> (r: Email)
        ensures
            r@ == self@,
    {
        proof {
            use_type_invariant(self);
        }
        Email(self.0.clone())
    }
}

impl TryFrom<&str> for Email {
    type Error = EmailError;

    fn try_from(value: &str) -> (r: Result<Email, EmailError>)
        ensures
            email_result(value@, r),
    {
        Email::new(value.to_owned())
    }
}

impl vstd::std_specs::convert::TryFromSpecImpl<&str> for Email {
    open spec fn obeys_try_from_spec() -> bool {
        false
    }

    open spec fn try_from_spec(v: &str) -> Result<Email, EmailError> {
        arbitrary()
    }
}

impl TryFrom<String> for Email {
    type Error = EmailError;

    fn try_from(value: String) -> (r: Result<Email, EmailError>)
        ensures
            email_result(value@, r),
    {
        Email::new(value)
    }
}

impl vstd::std_specs::convert::TryFromSpecImpl<String> for Email {
    open spec fn obeys_try_from_spec() -> bool {
        false
    }

    open spec fn try_from_spec(v: String) -> Result<Email, EmailError> {
        arbitrary()
    }
}

} // verus!
