//! The address of a profile picture.
use crate::text::{
    decimal, decimal_text, ends_with, has_prefix, has_suffix, lemma_trimmed_idempotent, starts_with,
    trim_text, trimmed,
};
use vstd::prelude::*;

verus! {

pub const IMAGE_URL_MAX_LENGTH: usize = 2048;

/// The rule that an image address breaks. `InvalidUrl` is kept for a stricter parse of
/// the address and is not returned.
#[derive(Debug, Clone, Copy, PartialEq, Eq, PartialOrd, Ord, Hash, Structural)]
pub enum ImageUrlError {
    InvalidUrl,
    InvalidScheme,
    InvalidExtension,
    Empty,
    TooLong(usize),
}

impl ImageUrlError {
    /// The text that describes the broken rule.
    pub open spec fn describe(&self) -> Seq<char> {
        match self {
            ImageUrlError::InvalidUrl => "Invalid URL format"@,
            ImageUrlError::InvalidScheme => "URL must start with http:// or https://"@,
            ImageUrlError::InvalidExtension =>
                "URL must end with a valid image extension (.jpg, .jpeg, .png, .gif)"@,
            ImageUrlError::Empty => "URL cannot be empty"@,
            ImageUrlError::TooLong(n) => "URL is too long (maximum "@ + decimal(*n as nat)
                + " characters)"@,
        }
    }

    pub fn message(&self) -> (r: String)
        ensures
            r@ == self.describe(),
    {
        match self {
            ImageUrlError::InvalidUrl => "Invalid URL format".to_owned(),
            ImageUrlError::InvalidScheme => "URL must start with http:// or https://".to_owned(),
            ImageUrlError::InvalidExtension =>
                "URL must end with a valid image extension (.jpg, .jpeg, .png, .gif)".to_owned(),
            ImageUrlError::Empty => "URL cannot be empty".to_owned(),
            ImageUrlError::TooLong(n) => "URL is too long (maximum ".to_owned().concat(
                decimal_text(*n).as_str(),
            ).concat(" characters)"),
        }
    }
}

/// Whether `t` begins with `http://` or `https://`.
pub open spec fn web_scheme(t: Seq<char>) -> bool {
    has_prefix(t, "http://"@) || has_prefix(t, "https://"@)
}

/// Whether `t` ends with `.jpg`, `.jpeg`, `.png` or `.gif`.
pub open spec fn image_extension(t: Seq<char>) -> bool {
    has_suffix(t, ".jpg"@) || has_suffix(t, ".jpeg"@) || has_suffix(t, ".png"@) || has_suffix(
        t,
        ".gif"@,
    )
}

/// What validating `s` as an image address gives: the trimmed text, or the first rule it
/// breaks, in the order: empty, too long, scheme, extension.
pub open spec fn image_url_outcome(s: Seq<char>) -> Result<Seq<char>, ImageUrlError> {
    let t = trimmed(s);
    if t.len() == 0 {
        Err(ImageUrlError::Empty)
    } else if t.len() > IMAGE_URL_MAX_LENGTH {
        Err(ImageUrlError::TooLong(IMAGE_URL_MAX_LENGTH))
    } else if !web_scheme(t) {
        Err(ImageUrlError::InvalidScheme)
    } else if !image_extension(t) {
        Err(ImageUrlError::InvalidExtension)
    } else {
        Ok(t)
    }
}

/// A trimmed image address that keeps every rule.
#[derive(Debug, Eq, PartialOrd, Ord)]
pub struct ImageUrl(String);

impl View for ImageUrl {
    type V = Seq<char>;

    closed spec fn view(&self) -> Seq<char> {
        self.0@
    }
}

/// Whether `r` is what validating `s` gives: the value object holding the trimmed text, or
/// the rule that `s` breaks.
pub open spec fn image_url_result(s: Seq<char>, r: Result<ImageUrl, ImageUrlError>) -> bool {
    match r {
        Ok(v) => image_url_outcome(s) == Ok::<Seq<char>, ImageUrlError>(v@),
        Err(e) => image_url_outcome(s) == Err::<Seq<char>, ImageUrlError>(e),
    }
}

impl ImageUrl {
    #[verifier::type_invariant]
    spec fn valid(&self) -> bool {
        image_url_outcome(self.0@) == Ok::<Seq<char>, ImageUrlError>(self.0@)
    }

    /// Trims `value` and validates it.
    pub fn try_new(value: String) -> (r: Result<ImageUrl, ImageUrlError>)
        ensures
            image_url_result(value@, r),
    {
        let t = trim_text(value.as_str());
        let n = t.unicode_len();
        if n == 0 {
            return Err(ImageUrlError::Empty);
        }
        if n > IMAGE_URL_MAX_LENGTH {
            return Err(ImageUrlError::TooLong(IMAGE_URL_MAX_LENGTH));
        }
        if !starts_with(t, "http://") && !starts_with(t, "https://") {
            return Err(ImageUrlError::InvalidScheme);
        }
        if !(ends_with(t, ".jpg") || ends_with(t, ".jpeg") || ends_with(t, ".png") || ends_with(
            t,
            ".gif",
        )) {
            return Err(ImageUrlError::InvalidExtension);
        }
        proof {
            lemma_trimmed_idempotent(value@);
        }
        Ok(ImageUrl(t.to_owned()))
    }

    pub fn into_inner(self) -> (r: String)
        ensures
            r@ == self@,
            image_url_outcome(r@) == Ok::<Seq<char>, ImageUrlError>(r@),
    {
        proof {
            use_type_invariant(&self);
        }
        self.0
    }

    pub fn as_ref(&self) -> (r: &str)
        ensures
            r@ == self@,
            image_url_outcome(r@) == Ok::<Seq<char>, ImageUrlError>(r@),
    {
        proof {
            use_type_invariant(self);
        }
        self.0.as_str()
    }

    /// The address as text.
    pub fn to_string(&self) -> (r: String)
        ensures
            r@ == self@,
            image_url_outcome(r@) == Ok::<Seq<char>, ImageUrlError>(r@),
    {
        proof {
            use_type_invariant(self);
        }
        self.0.clone()
    }
}

impl PartialEq for ImageUrl {
    fn eq(&self, other: &ImageUrl) -> (r: bool) {
        self.0 == other.0
    }
}

impl vstd::std_specs::cmp::PartialEqSpecImpl for ImageUrl {
    open spec fn obeys_eq_spec() -> bool {
        true
    }

    open spec fn eq_spec(&self, other: &ImageUrl) -> bool {
        self@ == other@
    }
}

impl Clone for ImageUrl {
    fn clone(&self) -> (r: ImageUrl)
        ensures
            r@ == self@,
    {
        proof {
            use_type_invariant(self);
        }
        ImageUrl(self.0.clone())
    }
}

impl TryFrom<&str> for ImageUrl {
    type Error = ImageUrlError;

    fn try_from(value: &str) -> (r: Result<ImageUrl, ImageUrlError>)
        ensures
            image_url_result(value@, r),
    {
        ImageUrl::try_new(value.to_owned())
    }
}

impl vstd::std_specs::convert::TryFromSpecImpl<&str> for ImageUrl {
    open spec fn obeys_try_from_spec() -> bool {
        false
    }

    open spec fn try_from_spec(v: &str) -> Result<ImageUrl, ImageUrlError> {
        arbitrary()
    }
}

impl TryFrom<String> for ImageUrl {
    type Error = ImageUrlError;

    fn try_from(value: String) -> (r: Result<ImageUrl, ImageUrlError>)
        ensures
            image_url_result(value@, r),
    {
        ImageUrl::try_new(value)
    }
}

impl vstd::std_specs::convert::TryFromSpecImpl<String> for ImageUrl {
    open spec fn obeys_try_from_spec() -> bool {
        false
    }

    open spec fn try_from_spec(v: String) -> Result<ImageUrl, ImageUrlError> {
        arbitrary()
    }
}

} // verus!
