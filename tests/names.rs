use profiles::first_name::{FirstName, FirstNameError};
use profiles::last_name::{LastName, LastNameError};

#[test]
fn when_first_name_empty_should_empty_error() {
    let first_name = FirstName::try_new("".to_string());
    assert!(matches!(first_name, Err(FirstNameError::Empty)));
}

#[test]
fn when_first_name_just_white_space_should_empty_error() {
    let first_name = FirstName::try_new("  ".to_string());
    assert!(matches!(first_name, Err(FirstNameError::Empty)));
}

#[test]
fn when_first_name_too_short_should_min_length_error() {
    let first_name = FirstName::try_new("a".to_string());
    assert!(matches!(first_name, Err(FirstNameError::ToShort(_))));
}

#[test]
fn when_first_name_too_long_should_max_length_error() {
    let first_name = FirstName::try_new(
        "Hello, I am a long first name for this history, because I am so so".to_string(),
    );
    assert!(matches!(first_name, Err(FirstNameError::ToLong(_))));
}

#[test]
fn when_first_name_start_with_invalid_characters_should_invalid_edge_characters_error() {
    let first_name = FirstName::try_new("& name".to_string());
    assert!(matches!(
        first_name,
        Err(FirstNameError::InvalidEdgeCharacters)
    ));
}

#[test]
fn when_first_name_end_with_invalid_characters_should_invalid_edge_characters_error() {
    let firs_name = FirstName::try_new("Da &".to_string());
    assert!(matches!(
        firs_name,
        Err(FirstNameError::InvalidEdgeCharacters)
    ));
}

#[test]
fn when_first_name_have_invalid_characters_should_invalid_characters_error() {
    let first_name = FirstName::try_new("Dani&lo".to_string());
    assert!(matches!(first_name, Err(FirstNameError::InvalidCharacters)));
}

#[test]
fn when_last_name_empty_should_empty_error() {
    let last_name = LastName::try_new("".to_string());
    assert!(matches!(last_name, Err(LastNameError::Empty)));
}

#[test]
fn when_last_name_just_white_space_should_empty_error() {
    let last_name = LastName::try_new("  ".to_string());
    assert!(matches!(last_name, Err(LastNameError::Empty)));
}

#[test]
fn when_last_name_to_short_should_min_length_error() {
    let last_name = LastName::try_new("a".to_string());
    assert!(matches!(last_name, Err(LastNameError::ToShort(_))));
}

#[test]
fn when_last_name_to_long_should_max_length_error() {
    let last_name =
        LastName::try_new("jfi fuodf oufdif oufsli fidojfo fios ufdsoufo".to_string());
    assert!(matches!(last_name, Err(LastNameError::ToLong(_))));
}

#[test]
fn when_last_name_start_with_invalid_characters_should_invalid_edge_characters_error() {
    let last_name = LastName::try_new("& name".to_string());
    assert!(matches!(
        last_name,
        Err(LastNameError::InvalidEdgeCharacters)
    ));
}

#[test]
fn when_last_name_end_with_invalid_characters_should_invalid_edge_characters_error() {
    let last_name = LastName::try_new("Da &".to_string());
    assert!(matches!(
        last_name,
        Err(LastNameError::InvalidEdgeCharacters)
    ));
}

#[test]
fn when_last_name_have_invalid_characters_should_invalid_characters_error() {
    let last_name = LastName::try_new("Test &dog".to_string());
    assert!(matches!(last_name, Err(LastNameError::InvalidCharacters)));
}

#[test]
fn when_last_name_valid_should_create_last_name() {
    let last_name_str = "Smith";
    let last_name = LastName::try_new(last_name_str.to_string()).unwrap();
    assert_eq!(last_name.to_string(), last_name_str);
}

#[test]
fn when_last_name_valid_should_create_last_name_from_str() {
    let last_name_str = "Smith";
    let last_name = LastName::try_from(last_name_str).unwrap();
    assert_eq!(last_name.to_string(), last_name_str);
}

#[test]
fn when_last_name_valid_should_create_last_name_from_string() {
    let last_name_str = "Smith";
    let last_name = LastName::try_from(last_name_str.to_string()).unwrap();
    assert_eq!(last_name.to_string(), last_name_str);
}

#[test]
fn edge_character_checked_before_character_class() {
    assert_eq!(
        FirstName::try_new("&bob".to_string()),
        Err(FirstNameError::InvalidEdgeCharacters)
    );
}

#[test]
fn first_name_length_boundaries() {
    assert!(FirstName::try_new("Al".to_string()).is_ok());
    assert!(FirstName::try_new("Abcdefghijklmno".to_string()).is_ok());
    assert_eq!(FirstName::try_new("A".to_string()), Err(FirstNameError::ToShort(2)));
    assert_eq!(
        FirstName::try_new("Abcdefghijklmnop".to_string()),
        Err(FirstNameError::ToLong(15))
    );
}

#[test]
fn last_name_length_boundaries() {
    assert!(LastName::try_new("Li".to_string()).is_ok());
    assert!(LastName::try_new("A".repeat(25)).is_ok());
    assert_eq!(LastName::try_new("L".to_string()), Err(LastNameError::ToShort(2)));
    assert_eq!(LastName::try_new("A".repeat(26)), Err(LastNameError::ToLong(25)));
}

#[test]
fn names_allow_inner_spaces_hyphens_and_unicode_letters() {
    let name = FirstName::try_new("  Jean-Luc ".to_string()).unwrap();
    assert_eq!(name.as_ref(), "Jean-Luc");
    let name = LastName::try_new("Ñúñez García".to_string()).unwrap();
    assert_eq!(name.into_inner(), "Ñúñez García".to_string());
}

#[test]
fn digits_pass_the_edge_check_but_not_the_character_class() {
    assert_eq!(
        FirstName::try_new("Ann3".to_string()),
        Err(FirstNameError::InvalidCharacters)
    );
}

#[test]
fn trimming_twice_gives_the_same_name() {
    let once = FirstName::try_new("\t Maria \n".to_string()).unwrap();
    let twice = FirstName::try_new(once.to_string()).unwrap();
    assert_eq!(once, twice);
    assert_eq!(twice.as_ref(), "Maria");
}

#[test]
fn equal_trimmed_names_are_equal_objects() {
    let a = LastName::try_new(" Smith".to_string()).unwrap();
    let b = LastName::try_new("Smith  ".to_string()).unwrap();
    let c = LastName::try_new("Smyth".to_string()).unwrap();
    assert_eq!(a, b);
    assert_ne!(a, c);
    assert!(a < c);
}

#[test]
fn same_invalid_name_gives_same_error_each_time() {
    let first = FirstName::try_new("Dani&lo".to_string());
    let second = FirstName::try_new("Dani&lo".to_string());
    assert_eq!(first, second);
}

#[test]
fn first_name_check_trimmed_takes_the_verdicts() {
    assert_eq!(
        FirstName::check_trimmed("Bob", false, true),
        Err(FirstNameError::InvalidEdgeCharacters)
    );
    assert_eq!(
        FirstName::check_trimmed("Bob", true, false),
        Err(FirstNameError::InvalidCharacters)
    );
    assert_eq!(FirstName::check_trimmed("Bob", true, true), Ok(()));
    assert_eq!(
        LastName::check_trimmed("B", true, true),
        Err(LastNameError::ToShort(2))
    );
}

#[test]
fn both_entry_points_agree() {
    for text in ["", "  ", "a", "& name", "Dani&lo", " Maria "] {
        assert_eq!(FirstName::try_from(text), FirstName::try_new(text.to_string()));
        assert_eq!(
            LastName::try_from(text.to_string()),
            LastName::try_new(text.to_string())
        );
    }
}
