use solution_opener::matnr::{is_mat_nr, leading_chars, typed_mat_nr};

#[test]
fn test_matnr() -> Result<(), String> {
    assert_eq!(is_mat_nr("2"), false);
    assert_eq!(is_mat_nr("02"), false);
    assert_eq!(is_mat_nr("25222522"), true);
    assert_eq!(is_mat_nr("01234567"), true);
    Ok(())
}

#[test]
fn rejects_a_letter_among_the_digits() {
    assert_eq!(is_mat_nr("1234567a"), false);
}

#[test]
fn rejects_wrong_lengths_and_other_digits() {
    assert!(!is_mat_nr(""));
    assert!(!is_mat_nr("1234567"));
    assert!(!is_mat_nr("123456789"));
    assert!(!is_mat_nr("1234 567"));
    assert!(!is_mat_nr("１２３４５６７８"));
    assert!(is_mat_nr("00000000"));
}

#[test]
fn typed_number_is_the_start_of_the_trimmed_input() {
    assert_eq!(typed_mat_nr("  01234567  "), "01234567");
    assert_eq!(typed_mat_nr("01234567 - Max Mustermann"), "01234567");
    assert_eq!(typed_mat_nr("\t123\n"), "123");
    assert_eq!(typed_mat_nr(""), "");
}

#[test]
fn leading_chars_cuts_by_characters() {
    assert_eq!(leading_chars("abcdef", 3), "abc");
    assert_eq!(leading_chars("ab", 3), "ab");
    assert_eq!(leading_chars("äöüß", 2), "äö");
    assert_eq!(leading_chars("abc", 0), "");
}
