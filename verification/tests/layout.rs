use solution_opener::config::MyConfig;
use solution_opener::layout::{
    code_shortcut_of, code_source_of, code_target_of, empty_scaffold_path_of, exercise_dir_of,
    framework_path_of, framework_paths_of, frameworks_dir_name, marker_content_text,
    marker_path_of, report_source_of, report_target_of, reports_dir_name, scaffold_path_of,
    submissions_dir_name, workspace_path_of,
};
use solution_opener::menu::{open_options, OkCancel, OpenOption};
use solution_opener::staging::{FileExistsOptions, Workspace};

#[test]
fn source_directories() {
    assert_eq!(frameworks_dir_name(), "frameworks");
    assert_eq!(submissions_dir_name(), "abgaben");
    assert_eq!(reports_dir_name(), "abgaben/Berichte");
    assert_eq!(framework_path_of("A1"), "frameworks/A1");
    assert_eq!(
        framework_paths_of(&vec!["A1".to_string(), "A2".to_string()]),
        vec!["frameworks/A1".to_string(), "frameworks/A2".to_string()]
    );
    assert_eq!(report_source_of("a-b-01234567.pdf"), "abgaben/Berichte/a-b-01234567.pdf");
    assert_eq!(exercise_dir_of("A1"), "abgaben/A1");
    assert_eq!(code_source_of("A1", "a-b-01234567.java"), "abgaben/A1/a-b-01234567.java");
}

#[test]
fn workspace_paths() {
    assert_eq!(workspace_path_of("01234567"), "opened-solution/ad-01234567");
    assert_eq!(marker_path_of("01234567"), "opened-solution/ad-01234567/.gitignore");
    assert_eq!(marker_content_text(), "/*");
    assert_eq!(report_target_of("01234567", "r.pdf"), "opened-solution/ad-01234567/r.pdf");
    assert_eq!(
        code_target_of("01234567", "A1"),
        "opened-solution/ad-01234567/A1/src/main/java/exercise/StudentSolutionImplementation.java"
    );
    assert_eq!(
        code_shortcut_of("01234567", "A1"),
        "opened-solution/ad-01234567/A1-StudentSolutionImplementation.java"
    );
    assert_eq!(scaffold_path_of("01234567", "A1"), "opened-solution/ad-01234567/A1");
    assert_eq!(empty_scaffold_path_of("01234567", "A1"), "opened-solution/ad-01234567/A1-empty");
}

#[test]
fn labels() {
    assert_eq!(OkCancel::Confirm.label(), "Ok");
    assert_eq!(OkCancel::Cancel.label(), "Cancel");
    assert_eq!(FileExistsOptions::Overwrite.label(), "Overwrite");
    assert_eq!(FileExistsOptions::Cancel.label(), "Cancel");
    assert_eq!(OpenOption::PDF("Student PDF".to_string(), "x".to_string()).label(), "Student PDF");
    assert_eq!(OpenOption::Code("A1".to_string(), "x".to_string()).label(), "A1 code");
}

#[test]
fn options_are_the_report_and_the_populated_exercises() {
    let workspace = Workspace {
        path: "opened-solution/ad-01234567".to_string(),
        report: Some("r.pdf".to_string()),
        populated: vec!["A2".to_string(), "A1".to_string()],
        missing: vec!["A3".to_string()],
    };
    assert_eq!(
        open_options(&workspace),
        vec![
            OpenOption::PDF(
                "Student PDF".to_string(),
                "opened-solution/ad-01234567/r.pdf".to_string()
            ),
            OpenOption::Code("A2".to_string(), "opened-solution/ad-01234567/A2".to_string()),
            OpenOption::Code("A1".to_string(), "opened-solution/ad-01234567/A1".to_string()),
        ]
    );
}

#[test]
fn no_options_without_report_and_code() {
    let workspace = Workspace {
        path: "opened-solution/ad-01234567".to_string(),
        report: None,
        populated: Vec::new(),
        missing: vec!["A1".to_string()],
    };
    assert_eq!(open_options(&workspace), Vec::<OpenOption>::new());
}

#[test]
fn default_settings() {
    let config = MyConfig::default();
    assert_eq!(config.algodat_dir, ".");
    assert_eq!(config.intellij, "");
}
