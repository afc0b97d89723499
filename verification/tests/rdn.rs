use std::path::PathBuf;
use voxels_application::rdn::{ApplicationRDN, ApplicationRDNErrors};

#[test]
fn as_path() {
    let test_rdn = ApplicationRDN::new("test.com").unwrap();

    assert_eq!(
        test_rdn.as_path().iter().collect::<PathBuf>(),
        PathBuf::from("test/com")
    )
}

#[test]
fn as_path_with_prefix() {
    let test_rdn = ApplicationRDN::new("com.test").unwrap();

    assert_eq!(
        PathBuf::from(test_rdn.as_path_with_prefix("/prefix/to/")),
        PathBuf::from("/prefix/to/com/test")
    );

    assert_eq!(
        PathBuf::from(test_rdn.as_path_with_prefix("/")),
        PathBuf::from("/com/test")
    )
}

#[test]
fn as_path_gives_the_labels_in_order() {
    let rdn = ApplicationRDN::new("test.com").unwrap();
    assert_eq!(rdn.as_path(), vec!["test".to_string(), "com".to_string()]);
    let rdn = ApplicationRDN::new("com.example.my_app").unwrap();
    assert_eq!(
        rdn.as_path(),
        vec!["com".to_string(), "example".to_string(), "my_app".to_string()]
    );
}

#[test]
fn as_path_with_prefix_joins_with_one_slash() {
    let rdn = ApplicationRDN::new("test.com").unwrap();
    assert_eq!(rdn.as_path_with_prefix("/prefix/to"), "/prefix/to/test/com");
    assert_eq!(rdn.as_path_with_prefix("/prefix/to/"), "/prefix/to/test/com");
    assert_eq!(rdn.as_path_with_prefix("/"), "/test/com");
    assert_eq!(rdn.as_path_with_prefix(""), "test/com");
    assert_eq!(rdn.as_path_with_prefix("relative"), "relative/test/com");
}

#[test]
fn valid_name_is_kept_verbatim() {
    let rdn = ApplicationRDN::new("test.com").unwrap();
    assert_eq!(rdn.name(), "test.com");
    let rdn = ApplicationRDN::new("Com.Example_1.a9").unwrap();
    assert_eq!(rdn.name(), "Com.Example_1.a9");
}

#[test]
fn too_long_whatever_it_holds() {
    let long = "a".repeat(256);
    assert_eq!(ApplicationRDN::new(&long), Err(ApplicationRDNErrors::TooLong));
    let dots = ".".repeat(300);
    assert_eq!(ApplicationRDN::new(&dots), Err(ApplicationRDNErrors::TooLong));
    let odd = format!("{}-", "9.".repeat(200));
    assert_eq!(ApplicationRDN::new(&odd), Err(ApplicationRDNErrors::TooLong));
}

#[test]
fn length_limit_is_inclusive() {
    let name = format!("a.{}", "b".repeat(253));
    assert_eq!(name.chars().count(), 255);
    assert_eq!(ApplicationRDN::new(&name).unwrap().name(), name);
    let name = format!("a.{}", "b".repeat(254));
    assert_eq!(ApplicationRDN::new(&name), Err(ApplicationRDNErrors::TooLong));
}

#[test]
fn length_counts_characters() {
    let name = format!("a.{}", "é".repeat(253));
    assert!(name.len() > 255);
    assert_eq!(ApplicationRDN::new(&name).unwrap().name(), name);
}

#[test]
fn empty_is_rejected() {
    assert_eq!(ApplicationRDN::new(""), Err(ApplicationRDNErrors::Empty));
}

#[test]
fn missing_separator_is_rejected() {
    assert_eq!(
        ApplicationRDN::new("noseparator"),
        Err(ApplicationRDNErrors::MissingSeparators)
    );
    assert_eq!(ApplicationRDN::new("9-"), Err(ApplicationRDNErrors::MissingSeparators));
}

#[test]
fn double_separator_is_rejected() {
    assert_eq!(ApplicationRDN::new("test..com"), Err(ApplicationRDNErrors::DoubleSeparator));
    assert_eq!(ApplicationRDN::new(".test.com"), Err(ApplicationRDNErrors::DoubleSeparator));
    assert_eq!(ApplicationRDN::new("test.com."), Err(ApplicationRDNErrors::DoubleSeparator));
    assert_eq!(ApplicationRDN::new("."), Err(ApplicationRDNErrors::DoubleSeparator));
}

#[test]
fn numeric_start_is_rejected() {
    assert_eq!(
        ApplicationRDN::new("test.9hello.com"),
        Err(ApplicationRDNErrors::StartsWithNumeric)
    );
    assert_eq!(ApplicationRDN::new("9test.com"), Err(ApplicationRDNErrors::StartsWithNumeric));
    assert_eq!(ApplicationRDN::new("test.com.0"), Err(ApplicationRDNErrors::StartsWithNumeric));
}

#[test]
fn invalid_character_is_rejected() {
    assert_eq!(
        ApplicationRDN::new("test.he-llo.com"),
        Err(ApplicationRDNErrors::InvalidCharacter)
    );
    assert_eq!(ApplicationRDN::new("te st.com"), Err(ApplicationRDNErrors::InvalidCharacter));
    assert_eq!(ApplicationRDN::new("test.com/x"), Err(ApplicationRDNErrors::InvalidCharacter));
}

#[test]
fn rules_are_tried_in_order() {
    assert_eq!(ApplicationRDN::new("9a..b"), Err(ApplicationRDNErrors::DoubleSeparator));
    assert_eq!(ApplicationRDN::new("a-.9b"), Err(ApplicationRDNErrors::StartsWithNumeric));
    assert_eq!(ApplicationRDN::new("a-..b"), Err(ApplicationRDNErrors::DoubleSeparator));
    assert_eq!(ApplicationRDN::new("-.9"), Err(ApplicationRDNErrors::StartsWithNumeric));
}

#[test]
fn underscore_and_unicode_letters_are_accepted() {
    assert!(ApplicationRDN::new("_a._b").is_ok());
    assert!(ApplicationRDN::new("tést.com").is_ok());
    assert_eq!(ApplicationRDN::new("test.٣abc"), Err(ApplicationRDNErrors::StartsWithNumeric));
}

#[test]
fn names_compare_by_their_text() {
    let a = ApplicationRDN::new("com.a").unwrap();
    let b = ApplicationRDN::new("com.b").unwrap();
    assert_eq!(a, a.clone());
    assert_ne!(a, b);
    assert!(a < b);
}

#[test]
fn messages() {
    assert_eq!(
        ApplicationRDNErrors::TooLong.message(),
        "An application RDN should be less than 255 characters in length"
    );
    assert_eq!(
        ApplicationRDNErrors::Empty.message(),
        "An application RDN should not be an empty string "
    );
    assert_eq!(
        ApplicationRDNErrors::MissingSeparators.message(),
        "An application RDN must have at least one separating character: '.'"
    );
    assert_eq!(
        ApplicationRDNErrors::DoubleSeparator.message(),
        "An application RDN must not have two separating characters adjacent together e.g: 'test..com'"
    );
    assert_eq!(
        ApplicationRDNErrors::StartsWithNumeric.message(),
        "An applications RDN must not have a segment that begins with a numeric character e.g: 'test.9hello.com"
    );
    assert_eq!(
        ApplicationRDNErrors::InvalidCharacter.message(),
        "An application RDN must not have segments composed of anything other than alphanumerics and underscores"
    );
}
