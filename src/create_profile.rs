//! Creating a profile: the input's normalization and checks, and the decisions taken
//! around the storage's lookup and write. The caller performs those two storage calls.
use crate::email::{email_outcome, Email};
use crate::id::{uuid_parse, Id, IdError};
use crate::profile::{Profile, ProfileError, ProfileView};
use crate::repository::ProfileRepositoryError;
use crate::text::{decimal, decimal_text, has_prefix, trim_text, trimmed};
use vstd::prelude::*;

verus! {

pub const INPUT_ID_MIN_LENGTH: usize = 3;

pub const INPUT_ID_MAX_LENGTH: usize = 100;

pub const INPUT_EMAIL_MIN_LENGTH: usize = 3;

pub const INPUT_EMAIL_MAX_LENGTH: usize = 255;

/// What `str::to_lowercase` gives for `s`.
pub uninterp spec fn lower_of(s: Seq<char>) -> Seq<char>;

/// Relies on `str::to_lowercase`; the result depends on the characters alone.
#[verifier::external_body]
fn lowercase(s: &str) -> (r: String)
    ensures
        r@ == lower_of(s@),
{
    s.to_lowercase()
}

/// Whether `validify::validate_email` accepts `s` as an address of the HTML form rules.
pub uninterp spec fn html_email(s: Seq<char>) -> bool;

/// Relies on `validify::validate_email`, which refuses an empty text.
#[verifier::external_body]
fn validate_email(s: &str) -> (r: bool)
    ensures
        r == html_email(s@),
        s@.len() == 0 ==> !r,
{
    validify::validate_email(s)
}

/// The field of the input that a check refused.
#[derive(Debug, Clone, Copy, PartialEq, Eq, PartialOrd, Ord, Hash, Structural)]
pub enum InputError {
    IdLength,
    EmailFormat,
    EmailLength,
}

impl InputError {
    /// The text that describes the refusal.
    pub open spec fn describe(&self) -> Seq<char> {
        match self {
            InputError::IdLength => "id: length must be between "@ + decimal(
                INPUT_ID_MIN_LENGTH as nat,
            ) + " and "@ + decimal(INPUT_ID_MAX_LENGTH as nat) + " characters"@,
            InputError::EmailFormat => "email: not a valid email address"@,
            InputError::EmailLength => "email: length must be between "@ + decimal(
                INPUT_EMAIL_MIN_LENGTH as nat,
            ) + " and "@ + decimal(INPUT_EMAIL_MAX_LENGTH as nat) + " characters"@,
        }
    }

    pub fn message(&self) -> (r: String)
        ensures
            r@ == self.describe(),
    {
        match self {
            InputError::IdLength => "id: length must be between ".to_owned().concat(
                decimal_text(INPUT_ID_MIN_LENGTH).as_str(),
            ).concat(" and ").concat(decimal_text(INPUT_ID_MAX_LENGTH).as_str()).concat(
                " characters",
            ),
            InputError::EmailFormat => "email: not a valid email address".to_owned(),
            InputError::EmailLength => "email: length must be between ".to_owned().concat(
                decimal_text(INPUT_EMAIL_MIN_LENGTH).as_str(),
            ).concat(" and ").concat(decimal_text(INPUT_EMAIL_MAX_LENGTH).as_str()).concat(
                " characters",
            ),
        }
    }
}

/// The text lower-cased, then trimmed.
pub open spec fn normalized(s: Seq<char>) -> Seq<char> {
    trimmed(lower_of(s))
}

/// The first check that the normalized `id` and `email` fail, given whether `email` is an
/// address by the HTML form rules.
pub open spec fn input_rule(id: Seq<char>, email: Seq<char>, email_ok: bool) -> Result<
    (),
    InputError,
> {
    if id.len() < INPUT_ID_MIN_LENGTH || id.len() > INPUT_ID_MAX_LENGTH {
        Err(InputError::IdLength)
    } else if !email_ok {
        Err(InputError::EmailFormat)
    } else if email.len() < INPUT_EMAIL_MIN_LENGTH || email.len() > INPUT_EMAIL_MAX_LENGTH {
        Err(InputError::EmailLength)
    } else {
        Ok(())
    }
}

/// The raw request to create a profile.
#[derive(Debug, Clone)]
pub struct CreateProfileInput {
    pub id: String,
    pub email: String,
}

impl CreateProfileInput {
    /// Checks the normalized `id` and `email`, given whether `email` is an address by the
    /// HTML form rules.
    pub fn check_normalized(id: &str, email: &str, email_ok: bool) -> (r: Result<(), InputError>)
        ensures
            r == input_rule(id@, email@, email_ok),
    {
        let id_len = id.unicode_len();
        if id_len < INPUT_ID_MIN_LENGTH || id_len > INPUT_ID_MAX_LENGTH {
            return Err(InputError::IdLength);
        }
        if !email_ok {
            return Err(InputError::EmailFormat);
        }
        let email_len = email.unicode_len();
        if email_len < INPUT_EMAIL_MIN_LENGTH || email_len > INPUT_EMAIL_MAX_LENGTH {
            return Err(InputError::EmailLength);
        }
        Ok(())
    }

    /// Lower-cases and trims both fields, then checks them.
    pub fn normalize_and_validate(&mut self) -> (r: Result<(), InputError>)
        ensures
            final(self).id@ == normalized(old(self).id@),
            final(self).email@ == normalized(old(self).email@),
            r == input_rule(final(self).id@, final(self).email@, html_email(final(self).email@)),
    {
        let id = lowercase(self.id.as_str());
        let id = trim_text(id.as_str()).to_owned();
        let email = lowercase(self.email.as_str());
        let email = trim_text(email.as_str()).to_owned();
        self.id = id;
        self.email = email;
        let email_ok = validate_email(self.email.as_str());
        CreateProfileInput::check_normalized(self.id.as_str(), self.email.as_str(), email_ok)
    }
}

/// What the use case holds between the lookup and the write: the identity and address
/// that were read, and the identity's normalized text.
#[derive(Debug, Clone)]
pub struct PendingProfile {
    pub id: Id,
    pub email: Email,
    pub id_text: String,
}

/// Where creating a profile from the normalized `id` and `email` goes before storage is
/// asked: the identity's value and the address, or the detail of the refusal; `None` is a
/// text that is not a UUID, whose detail names the parser's reason after `invalid id: `.
pub open spec fn start_rule(id: Seq<char>, email: Seq<char>) -> Result<
    (u128, Seq<char>),
    Option<Seq<char>>,
> {
    match input_rule(id, email, html_email(email)) {
        Err(e) => Err(Some(e.describe())),
        Ok(_) => match uuid_parse(id) {
            None => Err(None),
            Some(v) => match email_outcome(email) {
                Err(e) => Err(Some(e.describe())),
                Ok(t) => Ok((v, t)),
            },
        },
    }
}

/// First step: normalizes and checks `input`, then reads the identity and the address.
/// On success the caller looks the identity up in storage.
pub fn start_create(input: CreateProfileInput) -> (r: Result<PendingProfile, ProfileError>)
    ensures
        match start_rule(normalized(input.id@), normalized(input.email@)) {
            Ok((v, t)) => r matches Ok(p) && p.id@ == v && p.email@ == t && p.id_text@
                == normalized(input.id@),
            Err(Some(d)) => r matches Err(ProfileError::InvalidData(m)) && m@ == d,
            Err(None) => r matches Err(ProfileError::InvalidData(m)) && has_prefix(
                m@,
                "invalid id: "@,
            ),
        },
{
    let mut input = input;
    match input.normalize_and_validate() {
        Err(e) => {
            return Err(ProfileError::InvalidData(e.message()));
        },
        Ok(()) => {},
    }
    let id = match Id::from_str(input.id.as_str()) {
        Ok(id) => id,
        Err(e) => {
            let m = e.message();
            proof {
                let IdError::Invalid(reason) = e;
                assert(("invalid id: "@ + reason@).subrange(0, "invalid id: "@.len() as int)
                    =~= "invalid id: "@);
            }
            return Err(ProfileError::InvalidData(m));
        },
    };
    let email = match Email::new(input.email.clone()) {
        Ok(email) => email,
        Err(e) => {
            return Err(ProfileError::InvalidData(e.message()));
        },
    };
    Ok(PendingProfile { id, email, id_text: input.id })
}

/// Second step, given what the lookup of the identity returned: a profile that exists
/// stops the creation, a failed lookup is reported, and otherwise the caller saves the
/// returned profile, which has no optional part.
pub fn after_lookup(
    pending: PendingProfile,
    found: Result<Option<Profile>, ProfileRepositoryError>,
) -> (r: Result<Profile, ProfileError>)
    ensures
        match found {
            Ok(Some(_)) => r matches Err(ProfileError::AlreadyExists(s)) && s@ == pending.id_text@,
            Err(e) => r matches Err(ProfileError::InvalidData(m)) && m@ == e.describe(),
            Ok(None) => r matches Ok(p) && p@ == (ProfileView {
                id: pending.id@,
                email: pending.email@,
                first_name: None,
                last_name: None,
                bio: None,
                profile_image_url: None,
            }),
        },
{
    match found {
        Ok(Some(_)) => Err(ProfileError::AlreadyExists(pending.id_text)),
        Err(e) => Err(ProfileError::InvalidData(e.message())),
        Ok(None) => Ok(Profile::new(pending.id, pending.email, None, None, None, None)),
    }
}

/// Last step, given what the write returned.
pub fn after_save(saved: Result<(), ProfileRepositoryError>) -> (r: Result<(), ProfileError>)
    ensures
        match saved {
            Ok(()) => r is Ok,
            Err(e) => r matches Err(ProfileError::InvalidData(m)) && m@ == e.describe(),
        },
{
    match saved {
        Ok(()) => Ok(()),
        Err(e) => Err(ProfileError::InvalidData(e.message())),
    }
}

} // verus!
