use solution_opener::lookup::{clone_names, contains_name, find_student_file, select_exercises};
use solution_opener::text::{chars_of, contains, matches_at, starts_with};

fn names(list: &[&str]) -> Vec<String> {
    list.iter().map(|s| s.to_string()).collect()
}

#[test]
fn contains_finds_a_part_anywhere() {
    assert!(contains("mustermann-max-01234567.java", "01234567"));
    assert!(contains("01234567", "01234567"));
    assert!(contains("abc", ""));
    assert!(contains("", ""));
    assert!(!contains("0123456", "01234567"));
    assert!(!contains("0123456x7", "01234567"));
    assert!(contains("aab", "ab"));
}

#[test]
fn starts_with_looks_at_the_beginning_only() {
    assert!(starts_with("01234567", "0123"));
    assert!(starts_with("01234567", ""));
    assert!(!starts_with("01234567", "1234"));
    assert!(!starts_with("01", "012"));
}

#[test]
fn finds_the_first_entry_that_holds_the_number() {
    let entries = names(&[
        "huber-anna-11111111.java",
        "mustermann-max-01234567.java",
        "copy-of-01234567.java",
    ]);
    assert_eq!(find_student_file(&entries, "01234567"), Some(1));
    assert_eq!(find_student_file(&entries, "11111111"), Some(0));
    assert_eq!(find_student_file(&entries, "22222222"), None);
    assert_eq!(find_student_file(&Vec::new(), "01234567"), None);
}

#[test]
fn exercises_are_the_folders_named_like_a_framework() {
    let frameworks = names(&["A1", "A2", "A3"]);
    let listed = names(&["Berichte", "A2", "A10", "A1", "a3"]);
    assert_eq!(select_exercises(listed, &frameworks), names(&["A2", "A1"]));
    assert_eq!(select_exercises(names(&["A1"]), &Vec::new()), Vec::<String>::new());
}

#[test]
fn names_are_compared_whole() {
    let list = names(&["A1", "A2"]);
    assert!(contains_name(&list, &"A1".to_string()));
    assert!(!contains_name(&list, &"A".to_string()));
    assert!(!contains_name(&list, &"A11".to_string()));
    assert_eq!(clone_names(&list), list);
}

#[test]
fn a_part_matches_only_where_it_fits() {
    let hay = chars_of("abcabc");
    let needle = chars_of("bc");
    assert_eq!(hay, vec!['a', 'b', 'c', 'a', 'b', 'c']);
    assert!(!matches_at(&hay, &needle, 0));
    assert!(matches_at(&hay, &needle, 1));
    assert!(matches_at(&hay, &needle, 4));
    assert!(!matches_at(&hay, &needle, 5));
    assert!(!matches_at(&hay, &needle, 6));
    assert!(!matches_at(&hay, &needle, 7));
    assert!(matches_at(&hay, &Vec::new(), 6));
    assert!(!matches_at(&hay, &Vec::new(), 7));
}
