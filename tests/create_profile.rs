use profiles::create_profile::{
    after_lookup, after_save, start_create, CreateProfileInput, InputError,
};
use profiles::email::Email;
use profiles::id::Id;
use profiles::profile::{Profile, ProfileError};
use profiles::repository::ProfileRepositoryError;

const FRESH_ID: &str = "550e8400-e29b-41d4-a716-446655440000";

fn input(id: &str, email: &str) -> CreateProfileInput {
    CreateProfileInput {
        id: id.to_string(),
        email: email.to_string(),
    }
}

/// Runs the three steps against an in-memory lookup result, and records each write.
fn run(
    request: CreateProfileInput,
    lookup: Result<Option<Profile>, ProfileRepositoryError>,
    save: Result<(), ProfileRepositoryError>,
) -> (Result<(), ProfileError>, Vec<Profile>) {
    let mut saved = Vec::new();
    let pending = match start_create(request) {
        Ok(p) => p,
        Err(e) => return (Err(e), saved),
    };
    match after_lookup(pending, lookup) {
        Ok(profile) => {
            saved.push(profile);
            (after_save(save), saved)
        }
        Err(e) => (Err(e), saved),
    }
}

#[test]
fn fresh_id_saves_exactly_one_bare_profile() {
    let (result, saved) = run(input(FRESH_ID, "  USER@Example.com "), Ok(None), Ok(()));
    assert_eq!(result, Ok(()));
    assert_eq!(saved.len(), 1);
    let profile = &saved[0];
    assert_eq!(profile.id().to_string(), FRESH_ID);
    assert_eq!(profile.email().as_ref(), "user@example.com");
    assert!(profile.first_name().is_none());
    assert!(profile.last_name().is_none());
    assert!(profile.bio().is_none());
    assert!(profile.profile_image_url().is_none());
}

#[test]
fn existing_id_fails_without_saving() {
    let existing = Profile::new(
        Id::from_str(FRESH_ID).unwrap(),
        Email::new("old@example.com".to_string()).unwrap(),
        None,
        None,
        None,
        None,
    );
    let (result, saved) = run(input(FRESH_ID, "user@example.com"), Ok(Some(existing)), Ok(()));
    assert_eq!(result, Err(ProfileError::AlreadyExists(FRESH_ID.to_string())));
    assert!(saved.is_empty());
}

#[test]
fn failed_lookup_is_reported_and_nothing_is_saved() {
    let (result, saved) = run(
        input(FRESH_ID, "user@example.com"),
        Err(ProfileRepositoryError::DatabaseError("down".to_string())),
        Ok(()),
    );
    assert_eq!(
        result,
        Err(ProfileError::InvalidData("Database error: down".to_string()))
    );
    assert!(saved.is_empty());
}

#[test]
fn failed_save_is_reported() {
    let (result, saved) = run(
        input(FRESH_ID, "user@example.com"),
        Ok(None),
        Err(ProfileRepositoryError::Unknown("disk".to_string())),
    );
    assert_eq!(result, Err(ProfileError::InvalidData("Unknown error: disk".to_string())));
    assert_eq!(saved.len(), 1);
}

#[test]
fn short_id_is_refused_before_any_storage_call() {
    let (result, saved) = run(input(" ab ", "user@example.com"), Ok(None), Ok(()));
    assert_eq!(
        result,
        Err(ProfileError::InvalidData(
            "id: length must be between 3 and 100 characters".to_string()
        ))
    );
    assert!(saved.is_empty());
}

#[test]
fn id_that_is_not_a_uuid_is_invalid_data() {
    let result = start_create(input("not-a-uuid", "user@example.com"));
    match result {
        Err(ProfileError::InvalidData(m)) => assert!(m.starts_with("invalid id: ")),
        other => panic!("unexpected {:?}", other),
    }
}

#[test]
fn malformed_email_is_invalid_data() {
    let result = start_create(input(FRESH_ID, "user.example.com"));
    assert_eq!(
        result.map(|p| p.id_text),
        Err(ProfileError::InvalidData(
            "email: not a valid email address".to_string()
        ))
    );
}

#[test]
fn input_is_lowercased_and_trimmed() {
    let mut request = input("  550E8400-E29B-41D4-A716-446655440000 ", " A@B.CO ");
    assert_eq!(request.normalize_and_validate(), Ok(()));
    assert_eq!(request.id, FRESH_ID);
    assert_eq!(request.email, "a@b.co");
}

#[test]
fn input_checks_in_order() {
    assert_eq!(
        CreateProfileInput::check_normalized("ab", "x", false),
        Err(InputError::IdLength)
    );
    assert_eq!(
        CreateProfileInput::check_normalized("abc", "a@b", false),
        Err(InputError::EmailFormat)
    );
    assert_eq!(
        CreateProfileInput::check_normalized("abc", "ab", true),
        Err(InputError::EmailLength)
    );
    assert_eq!(CreateProfileInput::check_normalized("abc", "a@b.c", true), Ok(()));
    let mut long_id = input(&"a".repeat(101), "a@b.co");
    assert_eq!(long_id.normalize_and_validate(), Err(InputError::IdLength));
}

#[test]
fn error_messages() {
    assert_eq!(
        ProfileError::AlreadyExists("x".to_string()).message(),
        "Profile with id x already exists"
    );
    assert_eq!(
        ProfileRepositoryError::NotFound("7".to_string()).message(),
        "Profile not found with id: 7"
    );
    assert_eq!(
        InputError::EmailLength.message(),
        "email: length must be between 3 and 255 characters"
    );
}
