//! Validated value objects for a user profile, the profile aggregate, and the
//! decisions of the create-profile use case.

pub mod text;
pub mod first_name;
pub mod last_name;
pub mod bio;
pub mod email;
pub mod image_url;
pub mod id;
pub mod repository;
pub mod profile;
pub mod create_profile;
pub mod laws;
