//! Laws that relate several validations of the value objects, and the path of a valid
//! creation request.
use crate::bio::{bio_outcome, bio_result, Bio, BioError, BIO_MAX_LENGTH, BIO_MIN_LENGTH};
use crate::email::{email_outcome, email_result, Email, EmailError, EMAIL_MAX_LENGTH};
use crate::first_name::{
    first_name_outcome, first_name_result, FirstName, FirstNameError,
    FIRST_NAME_MAX_LENGTH, FIRST_NAME_MIN_LENGTH,
};
use crate::image_url::{
    image_extension, image_url_outcome, image_url_result, web_scheme, ImageUrl, ImageUrlError,
    IMAGE_URL_MAX_LENGTH,
};
use crate::last_name::{
    last_name_outcome, last_name_result, LastName, LastNameError,
    LAST_NAME_MAX_LENGTH, LAST_NAME_MIN_LENGTH,
};
use crate::text::{
    edges_alphanumeric, lemma_trimmed_idempotent, matches_pattern, trimmed, BIO_CHARS,
    EMAIL_SHAPE, NAME_CHARS,
};
use crate::create_profile::{
    html_email, start_rule, INPUT_EMAIL_MAX_LENGTH, INPUT_EMAIL_MIN_LENGTH,
};
use crate::id::uuid_parse;
use vstd::prelude::*;
use vstd::std_specs::cmp::PartialEqSpec;

verus! {

/// Trimming is idempotent: validating the trimmed form of a text gives exactly what
/// validating the text gives, for each of the five value objects.
pub proof fn trimming_is_idempotent(s: Seq<char>)
    ensures
        trimmed(trimmed(s)) == trimmed(s),
        email_outcome(trimmed(s)) == email_outcome(s),
        first_name_outcome(trimmed(s)) == first_name_outcome(s),
        last_name_outcome(trimmed(s)) == last_name_outcome(s),
        bio_outcome(trimmed(s)) == bio_outcome(s),
        image_url_outcome(trimmed(s)) == image_url_outcome(s),
{
    lemma_trimmed_idempotent(s);
}

/// Two texts that validate as an email address give equal value objects exactly when their trimmed
/// forms are equal.
pub proof fn equal_text_equal_email(s1: Seq<char>, s2: Seq<char>, a: Email, b: Email)
    requires
        email_result(s1, Ok(a)),
        email_result(s2, Ok(b)),
    ensures
        a.eq_spec(&b) <==> trimmed(s1) == trimmed(s2),
{
}

/// Validating one text as an email address twice fails, or succeeds, alike: with the same kind of
/// error, or with equal value objects.
pub proof fn same_text_same_email_outcome(
    s: Seq<char>,
    r1: Result<Email, EmailError>,
    r2: Result<Email, EmailError>,
)
    requires
        email_result(s, r1),
        email_result(s, r2),
    ensures
        r1 is Err <==> r2 is Err,
        r1 is Err ==> r1->Err_0 == r2->Err_0,
        r1 is Ok ==> r1->Ok_0.eq_spec(&r2->Ok_0),
{
}

/// Two texts that validate as a first name give equal value objects exactly when their trimmed
/// forms are equal.
pub proof fn equal_text_equal_first_name(s1: Seq<char>, s2: Seq<char>, a: FirstName, b: FirstName)
    requires
        first_name_result(s1, Ok(a)),
        first_name_result(s2, Ok(b)),
    ensures
        a.eq_spec(&b) <==> trimmed(s1) == trimmed(s2),
{
}

/// Validating one text as a first name twice fails, or succeeds, alike: with the same kind of
/// error, or with equal value objects.
pub proof fn same_text_same_first_name_outcome(
    s: Seq<char>,
    r1: Result<FirstName, FirstNameError>,
    r2: Result<FirstName, FirstNameError>,
)
    requires
        first_name_result(s, r1),
        first_name_result(s, r2),
    ensures
        r1 is Err <==> r2 is Err,
        r1 is Err ==> r1->Err_0 == r2->Err_0,
        r1 is Ok ==> r1->Ok_0.eq_spec(&r2->Ok_0),
{
}

/// Two texts that validate as a last name give equal value objects exactly when their trimmed
/// forms are equal.
pub proof fn equal_text_equal_last_name(s1: Seq<char>, s2: Seq<char>, a: LastName, b: LastName)
    requires
        last_name_result(s1, Ok(a)),
        last_name_result(s2, Ok(b)),
    ensures
        a.eq_spec(&b) <==> trimmed(s1) == trimmed(s2),
{
}

/// Validating one text as a last name twice fails, or succeeds, alike: with the same kind of
/// error, or with equal value objects.
pub proof fn same_text_same_last_name_outcome(
    s: Seq<char>,
    r1: Result<LastName, LastNameError>,
    r2: Result<LastName, LastNameError>,
)
    requires
        last_name_result(s, r1),
        last_name_result(s, r2),
    ensures
        r1 is Err <==> r2 is Err,
        r1 is Err ==> r1->Err_0 == r2->Err_0,
        r1 is Ok ==> r1->Ok_0.eq_spec(&r2->Ok_0),
{
}

/// Two texts that validate as a bio give equal value objects exactly when their trimmed
/// forms are equal.
pub proof fn equal_text_equal_bio(s1: Seq<char>, s2: Seq<char>, a: Bio, b: Bio)
    requires
        bio_result(s1, Ok(a)),
        bio_result(s2, Ok(b)),
    ensures
        a.eq_spec(&b) <==> trimmed(s1) == trimmed(s2),
{
}

/// Validating one text as a bio twice fails, or succeeds, alike: with the same kind of
/// error, or with equal value objects.
pub proof fn same_text_same_bio_outcome(
    s: Seq<char>,
    r1: Result<Bio, BioError>,
    r2: Result<Bio, BioError>,
)
    requires
        bio_result(s, r1),
        bio_result(s, r2),
    ensures
        r1 is Err <==> r2 is Err,
        r1 is Err ==> r1->Err_0 == r2->Err_0,
        r1 is Ok ==> r1->Ok_0.eq_spec(&r2->Ok_0),
{
}

/// Two texts that validate as an image address give equal value objects exactly when their trimmed
/// forms are equal.
pub proof fn equal_text_equal_image_url(s1: Seq<char>, s2: Seq<char>, a: ImageUrl, b: ImageUrl)
    requires
        image_url_result(s1, Ok(a)),
        image_url_result(s2, Ok(b)),
    ensures
        a.eq_spec(&b) <==> trimmed(s1) == trimmed(s2),
{
}

/// Validating one text as an image address twice fails, or succeeds, alike: with the same kind of
/// error, or with equal value objects.
pub proof fn same_text_same_image_url_outcome(
    s: Seq<char>,
    r1: Result<ImageUrl, ImageUrlError>,
    r2: Result<ImageUrl, ImageUrlError>,
)
    requires
        image_url_result(s, r1),
        image_url_result(s, r2),
    ensures
        r1 is Err <==> r2 is Err,
        r1 is Err ==> r1->Err_0 == r2->Err_0,
        r1 is Ok ==> r1->Ok_0.eq_spec(&r2->Ok_0),
{
}

/// The length bounds of an email address: a trimmed length from one to the maximum passes the
/// length checks and, with the shape of an address, validates; one more than the maximum fails
/// with `TooLong`.
pub proof fn email_length_bounds(s: Seq<char>)
    ensures
        trimmed(s).len() == EMAIL_MAX_LENGTH + 1 ==> email_outcome(s)
            == Err::<Seq<char>, _>(EmailError::TooLong(EMAIL_MAX_LENGTH)),
        1 <= trimmed(s).len() <= EMAIL_MAX_LENGTH ==> email_outcome(s)
            != Err::<Seq<char>, _>(EmailError::TooLong(EMAIL_MAX_LENGTH)),
        1 <= trimmed(s).len() <= EMAIL_MAX_LENGTH
            && matches_pattern(EMAIL_SHAPE@, trimmed(s))
            ==> email_outcome(s) == Ok::<_, EmailError>(trimmed(s)),
{
}

/// The length bounds of an image address: a trimmed length from one to the maximum passes the
/// length checks and, with a web scheme and an image extension, validates; one more than the
/// maximum fails with `TooLong`.
pub proof fn image_url_length_bounds(s: Seq<char>)
    ensures
        trimmed(s).len() == IMAGE_URL_MAX_LENGTH + 1 ==> image_url_outcome(s)
            == Err::<Seq<char>, _>(ImageUrlError::TooLong(IMAGE_URL_MAX_LENGTH)),
        1 <= trimmed(s).len() <= IMAGE_URL_MAX_LENGTH ==> image_url_outcome(s)
            != Err::<Seq<char>, _>(ImageUrlError::TooLong(IMAGE_URL_MAX_LENGTH)),
        1 <= trimmed(s).len() <= IMAGE_URL_MAX_LENGTH
            && web_scheme(trimmed(s))
            && image_extension(trimmed(s))
            ==> image_url_outcome(s) == Ok::<_, ImageUrlError>(trimmed(s)),
{
}

/// The length bounds of a first name: a trimmed length from the minimum to the maximum passes
/// the length checks and, with alphanumeric edges and name characters, validates; one less than
/// the minimum fails with `ToShort`; one more than the maximum fails with `ToLong`.
pub proof fn first_name_length_bounds(s: Seq<char>)
    ensures
        trimmed(s).len() == FIRST_NAME_MIN_LENGTH - 1 ==> first_name_outcome(s)
            == Err::<Seq<char>, _>(FirstNameError::ToShort(FIRST_NAME_MIN_LENGTH)),
        trimmed(s).len() == FIRST_NAME_MAX_LENGTH + 1 ==> first_name_outcome(s)
            == Err::<Seq<char>, _>(FirstNameError::ToLong(FIRST_NAME_MAX_LENGTH)),
        FIRST_NAME_MIN_LENGTH <= trimmed(s).len() <= FIRST_NAME_MAX_LENGTH ==> first_name_outcome(s)
            != Err::<Seq<char>, _>(FirstNameError::ToShort(FIRST_NAME_MIN_LENGTH)),
        FIRST_NAME_MIN_LENGTH <= trimmed(s).len() <= FIRST_NAME_MAX_LENGTH ==> first_name_outcome(s)
            != Err::<Seq<char>, _>(FirstNameError::ToLong(FIRST_NAME_MAX_LENGTH)),
        FIRST_NAME_MIN_LENGTH <= trimmed(s).len() <= FIRST_NAME_MAX_LENGTH
            && edges_alphanumeric(trimmed(s))
            && matches_pattern(NAME_CHARS@, trimmed(s))
            ==> first_name_outcome(s) == Ok::<_, FirstNameError>(trimmed(s)),
{
}

/// The length bounds of a last name: a trimmed length from the minimum to the maximum passes
/// the length checks and, with alphanumeric edges and name characters, validates; one less than
/// the minimum fails with `ToShort`; one more than the maximum fails with `ToLong`.
pub proof fn last_name_length_bounds(s: Seq<char>)
    ensures
        trimmed(s).len() == LAST_NAME_MIN_LENGTH - 1 ==> last_name_outcome(s)
            == Err::<Seq<char>, _>(LastNameError::ToShort(LAST_NAME_MIN_LENGTH)),
        trimmed(s).len() == LAST_NAME_MAX_LENGTH + 1 ==> last_name_outcome(s)
            == Err::<Seq<char>, _>(LastNameError::ToLong(LAST_NAME_MAX_LENGTH)),
        LAST_NAME_MIN_LENGTH <= trimmed(s).len() <= LAST_NAME_MAX_LENGTH ==> last_name_outcome(s)
            != Err::<Seq<char>, _>(LastNameError::ToShort(LAST_NAME_MIN_LENGTH)),
        LAST_NAME_MIN_LENGTH <= trimmed(s).len() <= LAST_NAME_MAX_LENGTH ==> last_name_outcome(s)
            != Err::<Seq<char>, _>(LastNameError::ToLong(LAST_NAME_MAX_LENGTH)),
        LAST_NAME_MIN_LENGTH <= trimmed(s).len() <= LAST_NAME_MAX_LENGTH
            && edges_alphanumeric(trimmed(s))
            && matches_pattern(NAME_CHARS@, trimmed(s))
            ==> last_name_outcome(s) == Ok::<_, LastNameError>(trimmed(s)),
{
}

/// The length bounds of a bio: a trimmed length from the minimum to the maximum passes the
/// length checks and, with allowed characters, validates; one less than the minimum fails with
/// `TooShort`; one more than the maximum fails with `TooLong`.
pub proof fn bio_length_bounds(s: Seq<char>)
    ensures
        trimmed(s).len() == BIO_MIN_LENGTH - 1 ==> bio_outcome(s)
            == Err::<Seq<char>, _>(BioError::TooShort(BIO_MIN_LENGTH)),
        trimmed(s).len() == BIO_MAX_LENGTH + 1 ==> bio_outcome(s)
            == Err::<Seq<char>, _>(BioError::TooLong(BIO_MAX_LENGTH)),
        BIO_MIN_LENGTH <= trimmed(s).len() <= BIO_MAX_LENGTH ==> bio_outcome(s)
            != Err::<Seq<char>, _>(BioError::TooShort(BIO_MIN_LENGTH)),
        BIO_MIN_LENGTH <= trimmed(s).len() <= BIO_MAX_LENGTH ==> bio_outcome(s)
            != Err::<Seq<char>, _>(BioError::TooLong(BIO_MAX_LENGTH)),
        BIO_MIN_LENGTH <= trimmed(s).len() <= BIO_MAX_LENGTH
            && matches_pattern(BIO_CHARS@, trimmed(s))
            ==> bio_outcome(s) == Ok::<_, BioError>(trimmed(s)),
{
}

/// A creation request whose normalized identity is a UUID text (32 to 45 characters, the
/// only lengths the parser accepts) and whose normalized address passes the input checks and
/// the address rules is not refused before storage: it goes on to the lookup with that
/// identity and the trimmed address. What follows the lookup is `after_lookup`'s: a profile
/// that exists gives `AlreadyExists` and nothing to write; none gives the one profile to
/// write, with no optional part.
pub proof fn valid_request_reaches_lookup(id: Seq<char>, email: Seq<char>)
    requires
        uuid_parse(id) is Some,
        32 <= id.len() <= 45,
        html_email(email),
        INPUT_EMAIL_MIN_LENGTH <= email.len() <= INPUT_EMAIL_MAX_LENGTH,
        email_outcome(email) is Ok,
    ensures
        start_rule(id, email) == Ok::<_, Option<Seq<char>>>((uuid_parse(id)->0, trimmed(email))),
{
}

} // verus!
