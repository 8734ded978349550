//! Where things lie: the directories that are read, and the paths inside a
//! workspace. Every path is relative to the data root, its parts joined by `/`.

use vstd::prelude::*;
use vstd::string::StringExecFns;
use crate::text::views;

verus! {

/// The directory that holds one template directory per exercise.
pub open spec fn frameworks_dir() -> Seq<char> {
    "frameworks"@
}

/// The directory that holds one submission folder per exercise.
pub open spec fn submissions_dir() -> Seq<char> {
    "abgaben"@
}

/// The directory that holds one report per student.
pub open spec fn reports_dir() -> Seq<char> {
    "abgaben/Berichte"@
}

/// The workspace of a student: the prefix `ad-` and the matriculation number,
/// under `opened-solution`.
pub open spec fn workspace_path(mat_nr: Seq<char>) -> Seq<char> {
    "opened-solution/ad-"@ + mat_nr
}

/// The marker file of a workspace.
pub open spec fn marker_path(mat_nr: Seq<char>) -> Seq<char> {
    workspace_path(mat_nr) + "/.gitignore"@
}

/// What the marker file holds: a pattern that ignores the whole workspace.
pub open spec fn marker_content() -> Seq<char> {
    "/*"@
}

/// The template directory of an exercise.
pub open spec fn framework_path(exercise: Seq<char>) -> Seq<char> {
    "frameworks/"@ + exercise
}

/// The template directories of a list of exercises, one for one.
pub open spec fn framework_paths(names: Seq<Seq<char>>) -> Seq<Seq<char>> {
    Seq::new(names.len(), |i: int| framework_path(names[i]))
}

/// A report in the reports directory.
pub open spec fn report_source(file: Seq<char>) -> Seq<char> {
    "abgaben/Berichte/"@ + file
}

/// Where a report goes: the workspace root, under its own name.
pub open spec fn report_target(mat_nr: Seq<char>, file: Seq<char>) -> Seq<char> {
    workspace_path(mat_nr) + "/"@ + file
}

/// The submission folder of an exercise.
pub open spec fn exercise_dir(exercise: Seq<char>) -> Seq<char> {
    "abgaben/"@ + exercise
}

/// A file in the submission folder of an exercise.
pub open spec fn code_source(exercise: Seq<char>, file: Seq<char>) -> Seq<char> {
    exercise_dir(exercise) + "/"@ + file
}

/// Where a student's code goes inside the exercise's scaffold.
pub open spec fn code_target(mat_nr: Seq<char>, exercise: Seq<char>) -> Seq<char> {
    workspace_path(mat_nr) + "/"@ + exercise
        + "/src/main/java/exercise/StudentSolutionImplementation.java"@
}

/// The second copy of a student's code, at the workspace root.
pub open spec fn code_shortcut(mat_nr: Seq<char>, exercise: Seq<char>) -> Seq<char> {
    workspace_path(mat_nr) + "/"@ + exercise + "-StudentSolutionImplementation.java"@
}

/// The scaffold of an exercise in the workspace.
pub open spec fn scaffold_path(mat_nr: Seq<char>, exercise: Seq<char>) -> Seq<char> {
    workspace_path(mat_nr) + "/"@ + exercise
}

/// The scaffold of an exercise for which no code was found.
pub open spec fn empty_scaffold_path(mat_nr: Seq<char>, exercise: Seq<char>) -> Seq<char> {
    workspace_path(mat_nr) + "/"@ + exercise + "-empty"@
}

/// The directory that holds the frameworks.
pub fn frameworks_dir_name() -> (r: String)
    ensures
        r@ == frameworks_dir(),
{
    String::from_str("frameworks")
}

/// The directory that holds the submission folders.
pub fn submissions_dir_name() -> (r: String)
    ensures
        r@ == submissions_dir(),
{
    String::from_str("abgaben")
}

/// The directory that holds the reports.
pub fn reports_dir_name() -> (r: String)
    ensures
        r@ == reports_dir(),
{
    String::from_str("abgaben/Berichte")
}

/// The workspace of the student with this matriculation number.
pub fn workspace_path_of(mat_nr: &str) -> (r: String)
    ensures
        r@ == workspace_path(mat_nr@),
{
    String::from_str("opened-solution/ad-").concat(mat_nr)
}

/// The marker file of the student's workspace.
pub fn marker_path_of(mat_nr: &str) -> (r: String)
    ensures
        r@ == marker_path(mat_nr@),
{
    workspace_path_of(mat_nr).concat("/.gitignore")
}

/// What the marker file holds.
pub fn marker_content_text() -> (r: String)
    ensures
        r@ == marker_content(),
{
    String::from_str("/*")
}

/// The template directory of an exercise.
pub fn framework_path_of(exercise: &str) -> (r: String)
    ensures
        r@ == framework_path(exercise@),
{
    String::from_str("frameworks/").concat(exercise)
}

/// The template directories of a list of exercises, one for one.
pub fn framework_paths_of(names: &Vec<String>) -> (r: Vec<String>)
    ensures
        views(r@) == framework_paths(views(names@)),
{
    let mut paths: Vec<String> = Vec::new();
    let mut i: usize = 0;
    while i < names.len()
        invariant
            i <= names@.len(),
            views(paths@) == framework_paths(views(names@)).take(i as int),
        decreases names@.len() - i,
    {
        let ghost before = views(paths@);
        paths.push(framework_path_of(names[i].as_str()));
        assert(views(paths@) =~= before.push(framework_path(names@[i as int]@)));
        i += 1;
        assert(views(paths@) =~= framework_paths(views(names@)).take(i as int));
    }
    assert(framework_paths(views(names@)).take(names@.len() as int) =~= framework_paths(
        views(names@),
    ));
    paths
}

/// A report in the reports directory.
pub fn report_source_of(file: &str) -> (r: String)
    ensures
        r@ == report_source(file@),
{
    String::from_str("abgaben/Berichte/").concat(file)
}

/// Where a report goes in the student's workspace.
pub fn report_target_of(mat_nr: &str, file: &str) -> (r: String)
    ensures
        r@ == report_target(mat_nr@, file@),
{
    workspace_path_of(mat_nr).concat("/").concat(file)
}

/// The submission folder of an exercise.
pub fn exercise_dir_of(exercise: &str) -> (r: String)
    ensures
        r@ == exercise_dir(exercise@),
{
    String::from_str("abgaben/").concat(exercise)
}

/// A file in the submission folder of an exercise.
pub fn code_source_of(exercise: &str, file: &str) -> (r: String)
    ensures
        r@ == code_source(exercise@, file@),
{
    exercise_dir_of(exercise).concat("/").concat(file)
}

/// Where a student's code goes inside the exercise's scaffold.
pub fn code_target_of(mat_nr: &str, exercise: &str) -> (r: String)
    ensures
        r@ == code_target(mat_nr@, exercise@),
{
    workspace_path_of(mat_nr).concat("/").concat(exercise).concat(
        "/src/main/java/exercise/StudentSolutionImplementation.java",
    )
}

/// The second copy of a student's code, at the workspace root.
pub fn code_shortcut_of(mat_nr: &str, exercise: &str) -> (r: String)
    ensures
        r@ == code_shortcut(mat_nr@, exercise@),
{
    workspace_path_of(mat_nr).concat("/").concat(exercise).concat(
        "-StudentSolutionImplementation.java",
    )
}

/// The scaffold of an exercise in the workspace.
pub fn scaffold_path_of(mat_nr: &str, exercise: &str) -> (r: String)
    ensures
        r@ == scaffold_path(mat_nr@, exercise@),
{
    workspace_path_of(mat_nr).concat("/").concat(exercise)
}

/// The scaffold of an exercise for which no code was found.
pub fn empty_scaffold_path_of(mat_nr: &str, exercise: &str) -> (r: String)
    ensures
        r@ == empty_scaffold_path(mat_nr@, exercise@),
{
    workspace_path_of(mat_nr).concat("/").concat(exercise).concat("-empty")
}

} // verus!
