use solution_opener::student::{
    file_stem, get_known_students, is_hidden, parse_student_file, parse_student_stem,
    student_matches, student_suggester, suggestion_line, Student,
};

fn student(mat_nr: &str, first_name: &str, last_name: &str) -> Student {
    Student {
        mat_nr: mat_nr.to_string(),
        first_name: first_name.to_string(),
        last_name: last_name.to_string(),
    }
}

#[test]
fn parses_last_first_number() {
    let s = parse_student_file("mustermann-max-01234567").unwrap();
    assert_eq!(s.last_name, "mustermann");
    assert_eq!(s.first_name, "max");
    assert_eq!(s.mat_nr, "01234567");
}

#[test]
fn parse_needs_exactly_two_hyphens() {
    assert!(parse_student_file("").is_none());
    assert!(parse_student_file("mustermann").is_none());
    assert!(parse_student_file("mustermann-max").is_none());
    assert!(parse_student_file("von-mustermann-max-01234567").is_none());
}

#[test]
fn parse_keeps_empty_parts() {
    let s = parse_student_file("--").unwrap();
    assert_eq!(s.last_name, "");
    assert_eq!(s.first_name, "");
    assert_eq!(s.mat_nr, "");
    let t = parse_student_file("a--b").unwrap();
    assert_eq!(t.last_name, "a");
    assert_eq!(t.first_name, "");
    assert_eq!(t.mat_nr, "b");
}

#[test]
fn parse_does_not_check_the_number() {
    let s = parse_student_file("Müller-Zoë-xyz").unwrap();
    assert_eq!(s.last_name, "Müller");
    assert_eq!(s.first_name, "Zoë");
    assert_eq!(s.mat_nr, "xyz");
}

#[test]
fn students_are_equal_by_number() {
    assert!(student("01234567", "Max", "Mustermann") == student("01234567", "M.", "M."));
    assert!(student("01234567", "Max", "Mustermann") != student("01234568", "Max", "Mustermann"));
}

#[test]
fn known_students_keep_the_first_of_each_number() {
    let stems = vec![
        "mustermann-max-01234567".to_string(),
        "Berichte".to_string(),
        "huber-anna-11111111".to_string(),
        "mustermann-maximilian-01234567".to_string(),
        "A1".to_string(),
        "huber-anna-11111111".to_string(),
    ];
    let known = get_known_students(&stems);
    assert_eq!(known.len(), 2);
    assert_eq!(known[0].mat_nr, "01234567");
    assert_eq!(known[0].first_name, "max");
    assert_eq!(known[0].last_name, "mustermann");
    assert_eq!(known[1].mat_nr, "11111111");
    assert_eq!(known[1].first_name, "anna");
}

#[test]
fn known_students_of_nothing() {
    assert_eq!(get_known_students(&Vec::new()).len(), 0);
}

#[test]
fn hidden_names_begin_with_a_dot() {
    assert!(is_hidden(".git"));
    assert!(is_hidden("."));
    assert!(!is_hidden("A1"));
    assert!(!is_hidden("a.b"));
    assert!(!is_hidden(""));
}

#[test]
fn suggestion_line_has_number_then_names() {
    assert_eq!(
        suggestion_line(&student("01234567", "Max", "Mustermann")),
        "01234567 - Max Mustermann"
    );
}

#[test]
fn suggests_by_number_prefix() {
    let students = vec![
        student("01234567", "Max", "Mustermann"),
        student("01299999", "Anna", "Huber"),
        student("11111111", "Eva", "Gruber"),
    ];
    assert_eq!(
        student_suggester(&students, "012"),
        vec!["01234567 - Max Mustermann".to_string(), "01299999 - Anna Huber".to_string()]
    );
    assert_eq!(student_suggester(&students, "1111"), vec!["11111111 - Eva Gruber".to_string()]);
    assert_eq!(student_suggester(&students, "9"), Vec::<String>::new());
}

#[test]
fn suggests_by_name_in_any_case_and_either_order() {
    let students = vec![
        student("01234567", "Max", "Mustermann"),
        student("01299999", "Anna", "Huber"),
    ];
    assert_eq!(
        student_suggester(&students, "MAX MUSTER"),
        vec!["01234567 - Max Mustermann".to_string()]
    );
    assert_eq!(
        student_suggester(&students, "huber an"),
        vec!["01299999 - Anna Huber".to_string()]
    );
    assert_eq!(student_suggester(&students, "Huber Max"), Vec::<String>::new());
}

#[test]
fn empty_input_suggests_everyone() {
    let students = vec![
        student("01234567", "Max", "Mustermann"),
        student("01299999", "Anna", "Huber"),
    ];
    assert_eq!(student_suggester(&students, "").len(), 2);
}

#[test]
fn match_uses_the_lower_case_forms_it_is_given() {
    let s = student("01234567", "Max", "Mustermann");
    assert!(student_matches(&s, "0123", "0123", "max", "mustermann"));
    assert!(student_matches(&s, "x m", "x m", "max", "mustermann"));
    assert!(student_matches(&s, "nn m", "nn m", "max", "mustermann"));
    assert!(!student_matches(&s, "Max", "Max", "max", "mustermann"));
    assert!(!student_matches(&s, "234", "234", "max", "mustermann"));
}

#[test]
fn stem_is_the_name_up_to_the_last_dot() {
    assert_eq!(file_stem("mustermann-max-01234567.java"), "mustermann-max-01234567");
    assert_eq!(file_stem("archive.tar.gz"), "archive.tar");
    assert_eq!(file_stem("A1"), "A1");
    assert_eq!(file_stem(".gitignore"), ".gitignore");
    assert_eq!(file_stem(".hidden.txt"), ".hidden");
    assert_eq!(file_stem("name."), "name");
    assert_eq!(file_stem(""), "");
}

#[test]
fn parse_leaves_the_extension_out() {
    let s = parse_student_file("mustermann-max-01234567.java").unwrap();
    assert_eq!(s.last_name, "mustermann");
    assert_eq!(s.first_name, "max");
    assert_eq!(s.mat_nr, "01234567");
    let t = parse_student_file("a-b-c.tar.gz").unwrap();
    assert_eq!(t.mat_nr, "c.tar");
    assert!(parse_student_file("a-b.c-d").is_none());
    assert_eq!(parse_student_stem("a-b.c-d").unwrap().first_name, "b.c");
}

#[test]
fn known_students_are_read_from_file_names() {
    let files = vec![
        "mustermann-max-01234567.java".to_string(),
        "mustermann-max-01234567.pdf".to_string(),
        ".gitignore".to_string(),
    ];
    let known = get_known_students(&files);
    assert_eq!(known.len(), 1);
    assert_eq!(known[0].mat_nr, "01234567");
}
