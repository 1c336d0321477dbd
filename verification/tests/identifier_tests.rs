use adventure_dl::identifier::{
    check_identifier, pull_id_from_url, resolve, IDPackage, IdentifierError, Input,
};

fn refused(reason: &str) -> IDPackage {
    IDPackage { valid: false, id: String::new(), error_message: reason.to_string() }
}

fn accepted(id: &str) -> IDPackage {
    IDPackage { valid: true, id: id.to_string(), error_message: String::new() }
}

#[test]
fn twelve_digits_pass_the_check() {
    assert_eq!(check_identifier("123456789012"), Ok(()));
    assert_eq!(check_identifier("000000000000"), Ok(()));
    assert_eq!(check_identifier("999999999999"), Ok(()));
}

#[test]
fn trailing_letters_are_non_digit() {
    let checked = check_identifier("1234567890ab");
    assert_eq!(checked, Err(IdentifierError::NonDigit));
    let message = IdentifierError::NonDigit.message("1234567890ab");
    assert_eq!(message, "Error: Given ID contains non-digit characters.");
    assert!(message.contains("non-digit characters"));
}

#[test]
fn five_digits_are_too_short() {
    assert_eq!(check_identifier("12345"), Err(IdentifierError::TooShort));
    let message = IdentifierError::TooShort.message("12345");
    assert_eq!(message, "Error: Given ID 12345 is too short\nCreation ID's are 12 digits long");
    assert!(message.contains("too short"));
}

#[test]
fn thirteen_digits_are_too_long() {
    assert_eq!(check_identifier("1234567890123"), Err(IdentifierError::TooLong));
    assert_eq!(
        IdentifierError::TooLong.message("1234567890123"),
        "Error: Given ID 1234567890123 is too long\nCreation ID's are 12 digits long"
    );
}

#[test]
fn the_empty_text_is_too_short() {
    assert_eq!(check_identifier(""), Err(IdentifierError::TooShort));
}

#[test]
fn characters_are_judged_before_length() {
    assert_eq!(check_identifier("12a"), Err(IdentifierError::NonDigit));
    assert_eq!(check_identifier("12345678901234567890x"), Err(IdentifierError::NonDigit));
    assert_eq!(check_identifier("12345678901 "), Err(IdentifierError::NonDigit));
    assert_eq!(check_identifier("-23456789012"), Err(IdentifierError::NonDigit));
}

#[test]
fn digits_of_other_scripts_are_no_digits() {
    // Twelve Arabic-Indic digits.
    let id = "\u{0661}\u{0662}\u{0663}\u{0664}\u{0665}\u{0666}\u{0667}\u{0668}\u{0669}\u{0660}\u{0661}\u{0662}";
    assert_eq!(id.chars().count(), 12);
    assert_eq!(check_identifier(id), Err(IdentifierError::NonDigit));
}

#[test]
fn url_with_marker_resolves_to_the_twelve_characters_behind_it() {
    let package = pull_id_from_url("https://example.com/sast-123456789012-x");
    assert_eq!(package, accepted("123456789012"));
}

#[test]
fn url_ending_with_the_identifier_resolves() {
    assert_eq!(pull_id_from_url("sast-500267423060"), accepted("500267423060"));
}

#[test]
fn url_without_marker_is_a_format_error() {
    assert_eq!(
        pull_id_from_url("https://example.com/123456789012"),
        refused("Error: URL is not in a valid format")
    );
    assert_eq!(pull_id_from_url(""), refused("Error: URL is not in a valid format"));
    assert_eq!(
        pull_id_from_url("https://example.com/SAST-123456789012"),
        refused("Error: URL is not in a valid format")
    );
}

#[test]
fn url_with_fewer_than_twelve_characters_behind_the_marker_is_a_format_error() {
    assert_eq!(
        pull_id_from_url("https://example.com/sast-12345678901"),
        refused("Error: URL is not in a valid format")
    );
    assert_eq!(pull_id_from_url("sast-"), refused("Error: URL is not in a valid format"));
}

#[test]
fn url_with_a_candidate_that_is_not_digits_names_the_candidate() {
    assert_eq!(
        pull_id_from_url("https://example.com/sast-12345678901x/more"),
        refused("Error: URL contains an invalid ID: 12345678901x")
    );
}

#[test]
fn the_leftmost_marker_counts() {
    assert_eq!(
        pull_id_from_url("sast-111111111111/sast-222222222222"),
        accepted("111111111111")
    );
    assert_eq!(
        pull_id_from_url("sast-sast-222222222222"),
        refused("Error: URL contains an invalid ID: sast-2222222")
    );
}

#[test]
fn characters_behind_the_marker_are_counted_as_characters() {
    // Two-byte characters before the marker do not shift what is taken.
    assert_eq!(pull_id_from_url("h\u{e9}\u{e9}/sast-123456789012"), accepted("123456789012"));
    assert_eq!(
        pull_id_from_url("sast-12345678901\u{e9}"),
        refused("Error: URL contains an invalid ID: 12345678901\u{e9}")
    );
}

#[test]
fn a_direct_identifier_is_carried_on_unexamined() {
    assert_eq!(resolve("1234567890ab", Input::ID), accepted("1234567890ab"));
    assert_eq!(resolve("", Input::ID), accepted(""));
}

#[test]
fn resolving_in_url_mode_reads_the_address() {
    assert_eq!(
        resolve("https://example.com/sast-123456789012-x", Input::URL),
        accepted("123456789012")
    );
    assert_eq!(
        resolve("123456789012", Input::URL),
        refused("Error: URL is not in a valid format")
    );
}

#[test]
fn what_an_address_yields_passes_the_check() {
    let package = pull_id_from_url("http://x/sast-000000000001?y");
    assert!(package.valid);
    assert_eq!(check_identifier(&package.id), Ok(()));
}
