//! What storage reports when it fails.
use vstd::prelude::*;

verus! {

/// A failure of the storage behind the profiles.
#[derive(Debug, Clone, PartialEq, Eq, PartialOrd, Ord)]
pub enum ProfileRepositoryError {
    DatabaseError(String),
    NotFound(String),
    Unknown(String),
}

impl ProfileRepositoryError {
    /// The text that describes the failure.
    pub open spec fn describe(&self) -> Seq<char> {
        match self {
            ProfileRepositoryError::DatabaseError(d) => "Database error: "@ + d@,
            ProfileRepositoryError::NotFound(d) => "Profile not found with id: "@ + d@,
            ProfileRepositoryError::Unknown(d) => "Unknown error: "@ + d@,
        }
    }

    pub fn message(&self) -> (r: String)
        ensures
            r@ == self.describe(),
    {
        match self {
            ProfileRepositoryError::DatabaseError(d) => "Database error: ".to_owned().concat(
                d.as_str(),
            ),
            ProfileRepositoryError::NotFound(d) => "Profile not found with id: ".to_owned().concat(
                d.as_str(),
            ),
            ProfileRepositoryError::Unknown(d) => "Unknown error: ".to_owned().concat(d.as_str()),
        }
    }
}

} // verus!
