//! The profile aggregate: an identity and an address, with optional details.
use crate::bio::Bio;
use crate::email::Email;
use crate::first_name::FirstName;
use crate::id::Id;
use crate::image_url::ImageUrl;
use crate::last_name::LastName;
use vstd::prelude::*;

verus! {

/// Why a profile use case failed.
#[derive(Debug, Clone, PartialEq, Eq, PartialOrd, Ord)]
pub enum ProfileError {
    AlreadyExists(String),
    InvalidData(String),
    NotFound(String),
    Unknown(String),
}

impl ProfileError {
    /// The text that describes the failure.
    pub open spec fn describe(&self) -> Seq<char> {
        match self {
            ProfileError::AlreadyExists(id) => "Profile with id "@ + id@ + " already exists"@,
            ProfileError::InvalidData(d) => "Invalid profile data: "@ + d@,
            ProfileError::NotFound(id) => "Profile not found with id: "@ + id@,
            ProfileError::Unknown(d) => "Unknown error: "@ + d@,
        }
    }

    pub fn message(&self) -> (r: String)
        ensures
            r@ == self.describe(),
    {
        match self {
            ProfileError::AlreadyExists(id) => "Profile with id ".to_owned().concat(
                id.as_str(),
            ).concat(" already exists"),
            ProfileError::InvalidData(d) => "Invalid profile data: ".to_owned().concat(d.as_str()),
            ProfileError::NotFound(id) => "Profile not found with id: ".to_owned().concat(
                id.as_str(),
            ),
            ProfileError::Unknown(d) => "Unknown error: ".to_owned().concat(d.as_str()),
        }
    }
}

/// A profile seen through the views of its parts.
pub struct ProfileView {
    pub id: u128,
    pub email: Seq<char>,
    pub first_name: Option<Seq<char>>,
    pub last_name: Option<Seq<char>>,
    pub bio: Option<Seq<char>>,
    pub profile_image_url: Option<Seq<char>>,
}

pub open spec fn option_view<T: View>(o: Option<T>) -> Option<T::V> {
    match o {
        Some(t) => Some(t@),
        None => None,
    }
}

/// A profile: its parts were each validated when they were built, and it adds no rule.
#[derive(Debug, Clone, PartialEq, Eq, PartialOrd, Ord)]
pub struct Profile {
    id: Id,
    email: Email,
    first_name: Option<FirstName>,
    last_name: Option<LastName>,
    bio: Option<Bio>,
    profile_image_url: Option<ImageUrl>,
}

impl View for Profile {
    type V = ProfileView;

    closed spec fn view(&self) -> ProfileView {
        ProfileView {
            id: self.id@,
            email: self.email@,
            first_name: option_view(self.first_name),
            last_name: option_view(self.last_name),
            bio: option_view(self.bio),
            profile_image_url: option_view(self.profile_image_url),
        }
    }
}

impl Profile {
    pub fn new(
        id: Id,
        email: Email,
        first_name: Option<FirstName>,
        last_name: Option<LastName>,
        bio: Option<Bio>,
        profile_image_url: Option<ImageUrl>,
    ) -> (r: Profile)
        ensures
            r@ == (ProfileView {
                id: id@,
                email: email@,
                first_name: option_view(first_name),
                last_name: option_view(last_name),
                bio: option_view(bio),
                profile_image_url: option_view(profile_image_url),
            }),
    {
        Profile { id, email, first_name, last_name, bio, profile_image_url }
    }

    pub fn id(&self) -> (r: &Id)
        ensures
            r@ == self@.id,
    {
        &self.id
    }

    pub fn email(&self) -> (r: &Email)
        ensures
            r@ == self@.email,
    {
        &self.email
    }

    pub fn first_name(&self) -> (r: Option<&FirstName>)
        ensures
            match r {
                Some(n) => self@.first_name == Some(n@),
                None => self@.first_name is None,
            },
    {
        match &self.first_name {
            Some(n) => Some(n),
            None => None,
        }
    }

    pub fn last_name(&self) -> (r: Option<&LastName>)
        ensures
            match r {
                Some(n) => self@.last_name == Some(n@),
                None => self@.last_name is None,
            },
    {
        match &self.last_name {
            Some(n) => Some(n),
            None => None,
        }
    }

    pub fn bio(&self) -> (r: Option<&Bio>)
        ensures
            match r {
                Some(b) => self@.bio == Some(b@),
                None => self@.bio is None,
            },
    {
        match &self.bio {
            Some(b) => Some(b),
            None => None,
        }
    }

    pub fn profile_image_url(&self) -> (r: Option<&ImageUrl>)
        ensures
            match r {
                Some(u) => self@.profile_image_url == Some(u@),
                None => self@.profile_image_url is None,
            },
    {
        match &self.profile_image_url {
            Some(u) => Some(u),
            None => None,
        }
    }
}

} // verus!
