//! Students known from the names of submitted files, and the suggestions
//! offered while a matriculation number is typed.

use vstd::prelude::*;
use vstd::string::StrSliceExecFns;
use vstd::string::StringExecFns;
use crate::text::{chars_of, contains, contains_seq, has_prefix, starts_with};

verus! {

/// A student as named by a submitted file.
#[derive(Clone, Debug)]
pub struct Student {
    pub mat_nr: String,
    pub first_name: String,
    pub last_name: String,
}

/// The characters of a student's three fields.
pub struct StudentView {
    pub mat_nr: Seq<char>,
    pub first_name: Seq<char>,
    pub last_name: Seq<char>,
}

impl View for Student {
    type V = StudentView;

    open spec fn view(&self) -> StudentView {
        StudentView {
            mat_nr: self.mat_nr@,
            first_name: self.first_name@,
            last_name: self.last_name@,
        }
    }
}

/// Two students are the same when their matriculation numbers are, whatever
/// their names.
impl PartialEq for Student {
    fn eq(&self, other: &Self) -> (r: bool) {
        self.mat_nr == other.mat_nr
    }
}

impl Eq for Student {

}

impl vstd::std_specs::cmp::PartialEqSpecImpl for Student {
    open spec fn obeys_eq_spec() -> bool {
        true
    }

    open spec fn eq_spec(&self, other: &Self) -> bool {
        self.mat_nr@ == other.mat_nr@
    }
}

/// The views of a list of students, one for one.
pub open spec fn student_views(v: Seq<Student>) -> Seq<StudentView> {
    Seq::new(v.len(), |i: int| v[i]@)
}

/// The positions of the hyphens in `s`, in rising order.
pub open spec fn dashes(s: Seq<char>) -> Seq<int>
    decreases s.len(),
{
    if s.len() == 0 {
        Seq::empty()
    } else if s.last() == '-' {
        dashes(s.drop_last()).push(s.len() - 1)
    } else {
        dashes(s.drop_last())
    }
}

/// A file stem of the form `lastname-firstname-number`, with exactly two
/// hyphens, names a student; any other stem names none. The three parts are
/// taken as they stand, the number unchecked.
pub open spec fn parse_student_spec(stem: Seq<char>) -> Option<StudentView> {
    let d = dashes(stem);
    if d.len() == 2 {
        Some(
            StudentView {
                last_name: stem.subrange(0, d[0]),
                first_name: stem.subrange(d[0] + 1, d[1]),
                mat_nr: stem.subrange(d[1] + 1, stem.len() as int),
            },
        )
    } else {
        None
    }
}

/// The position of the last dot in `name`, or -1 where it has none.
pub open spec fn last_dot(name: Seq<char>) -> int
    decreases name.len(),
{
    if name.len() == 0 {
        -1
    } else if name.last() == '.' {
        name.len() - 1
    } else {
        last_dot(name.drop_last())
    }
}

/// The stem of a file name: the name up to its last dot. A name without a
/// dot, or with its only dot in front, is its own stem.
pub open spec fn file_stem_spec(name: Seq<char>) -> Seq<char> {
    if last_dot(name) <= 0 {
        name
    } else {
        name.subrange(0, last_dot(name))
    }
}

/// The stem of a file name (a name without directories).
pub fn file_stem(name: &str) -> (r: String)
    ensures
        r@ == file_stem_spec(name@),
{
    let chars = chars_of(name);
    let n: usize = chars.len();
    let mut dot: usize = 0;
    let mut found: bool = false;
    let mut i: usize = 0;
    while i < n
        invariant
            chars@ == name@,
            n == chars@.len(),
            i <= n,
            found ==> dot < i && last_dot(chars@.take(i as int)) == dot,
            !found ==> last_dot(chars@.take(i as int)) == -1,
        decreases n - i,
    {
        proof {
            assert(chars@.take(i + 1).drop_last() =~= chars@.take(i as int));
        }
        if chars[i] == '.' {
            dot = i;
            found = true;
        }
        i += 1;
    }
    proof {
        assert(chars@.take(n as int) =~= chars@);
    }
    if found && dot > 0 {
        String::from_str(name.substring_char(0, dot))
    } else {
        String::from_str(name)
    }
}

/// Reads a student out of a file stem.
pub fn parse_student_stem(stem: &str) -> (r: Option<Student>)
    ensures
        match r {
            Some(student) => parse_student_spec(stem@) == Some(student@),
            None => parse_student_spec(stem@) is None,
        },
{
    let chars = chars_of(stem);
    let n: usize = chars.len();
    let mut first: usize = 0;
    let mut second: usize = 0;
    let mut count: usize = 0;
    let mut i: usize = 0;
    while i < n
        invariant
            chars@ == stem@,
            n == chars@.len(),
            i <= n,
            count <= i,
            count == dashes(chars@.take(i as int)).len(),
            count >= 1 ==> first < i && dashes(chars@.take(i as int))[0] == first,
            count >= 2 ==> first < second < i && dashes(chars@.take(i as int))[1] == second,
        decreases n - i,
    {
        proof {
            assert(chars@.take(i + 1).drop_last() =~= chars@.take(i as int));
        }
        if chars[i] == '-' {
            if count == 0 {
                first = i;
            } else if count == 1 {
                second = i;
            }
            count += 1;
        }
        i += 1;
    }
    proof {
        assert(chars@.take(n as int) =~= chars@);
    }
    if count != 2 {
        return None;
    }
    let last_name = String::from_str(stem.substring_char(0, first));
    let first_name = String::from_str(stem.substring_char(first + 1, second));
    let mat_nr = String::from_str(stem.substring_char(second + 1, n));
    Some(Student { mat_nr, first_name, last_name })
}

/// Reads a student out of the name of a submitted file (a name without
/// directories): its stem is taken for `lastname-firstname-number`.
pub fn parse_student_file(file_name: &str) -> (r: Option<Student>)
    ensures
        match r {
            Some(student) => parse_student_spec(file_stem_spec(file_name@)) == Some(student@),
            None => parse_student_spec(file_stem_spec(file_name@)) is None,
        },
{
    let stem = file_stem(file_name);
    parse_student_stem(stem.as_str())
}

/// Some student of `known` has the matriculation number `mat_nr`.
pub open spec fn has_mat_nr(known: Seq<StudentView>, mat_nr: Seq<char>) -> bool {
    exists|i: int| 0 <= i < known.len() && (#[trigger] known[i]).mat_nr == mat_nr
}

/// The students that a list of file names names, in the order of their first
/// appearance: of several files with one matriculation number the first counts.
pub open spec fn known_students_spec(files: Seq<Seq<char>>) -> Seq<StudentView>
    decreases files.len(),
{
    if files.len() == 0 {
        Seq::empty()
    } else {
        let before = known_students_spec(files.drop_last());
        match parse_student_spec(file_stem_spec(files.last())) {
            Some(student) => if has_mat_nr(before, student.mat_nr) {
                before
            } else {
                before.push(student)
            },
            None => before,
        }
    }
}

/// No two students of `known` share a matriculation number.
pub open spec fn distinct_mat_nrs(known: Seq<StudentView>) -> bool {
    forall|i: int, j: int|
        0 <= i < j < known.len() ==> (#[trigger] known[i]).mat_nr != (#[trigger] known[j]).mat_nr
}

/// Whether a student with this matriculation number is among `known`.
pub fn knows_mat_nr(known: &Vec<Student>, mat_nr: &String) -> (r: bool)
    ensures
        r == has_mat_nr(student_views(known@), mat_nr@),
{
    let mut i: usize = 0;
    while i < known.len()
        invariant
            i <= known@.len(),
            forall|t: int| 0 <= t < i ==> (#[trigger] student_views(known@)[t]).mat_nr != mat_nr@,
        decreases known@.len() - i,
    {
        if known[i].mat_nr == *mat_nr {
            assert(student_views(known@)[i as int].mat_nr == mat_nr@);
            return true;
        }
        i += 1;
    }
    false
}

/// The students named by the files found under the submissions directory,
/// each matriculation number once.
pub fn get_known_students(files: &Vec<String>) -> (r: Vec<Student>)
    ensures
        student_views(r@) == known_students_spec(crate::text::views(files@)),
        distinct_mat_nrs(student_views(r@)),
{
    let ghost names = crate::text::views(files@);
    let mut known: Vec<Student> = Vec::new();
    let mut i: usize = 0;
    assert(student_views(known@) =~= known_students_spec(names.take(0)));
    while i < files.len()
        invariant
            names == crate::text::views(files@),
            i <= files@.len(),
            student_views(known@) == known_students_spec(names.take(i as int)),
            distinct_mat_nrs(student_views(known@)),
        decreases files@.len() - i,
    {
        proof {
            assert(names.take(i + 1).drop_last() =~= names.take(i as int));
            assert(names.take(i + 1).last() == files@[i as int]@);
        }
        let ghost before = student_views(known@);
        match parse_student_file(files[i].as_str()) {
            Some(student) => {
                if !knows_mat_nr(&known, &student.mat_nr) {
                    known.push(student);
                    assert(student_views(known@) =~= before.push(student@));
                }
            },
            None => {},
        }
        i += 1;
    }
    proof {
        assert(names.take(files@.len() as int) =~= names);
    }
    known
}

/// Whether a directory entry of this name is hidden: its name begins with a dot.
pub fn is_hidden(name: &str) -> (r: bool)
    ensures
        r == has_prefix(name@, "."@),
{
    starts_with(name, ".")
}

/// The lower-case form of a string, as the standard library computes it.
pub uninterp spec fn lowercase(s: Seq<char>) -> Seq<char>;

/// `str::to_lowercase` of the standard library: the result is the lower-case
/// form of the argument, a function of its characters alone.
#[verifier::external_body]
fn to_lowercase(s: &str) -> (r: String)
    ensures
        r@ == lowercase(s@),
{
    s.to_lowercase()
}

/// What is typed selects a student when it begins the matriculation number, or
/// when its lower-case form stands in "first last" or in "last first", both in
/// lower case.
pub open spec fn matches_spec(
    student: StudentView,
    input: Seq<char>,
    lower_input: Seq<char>,
    lower_first: Seq<char>,
    lower_last: Seq<char>,
) -> bool {
    ||| has_prefix(student.mat_nr, input)
    ||| contains_seq(lower_first + " "@ + lower_last, lower_input)
    ||| contains_seq(lower_last + " "@ + lower_first, lower_input)
}

/// Whether what is typed selects the student, given the lower-case forms of
/// the input and of the student's two names.
pub fn student_matches(
    student: &Student,
    user_input: &str,
    lower_input: &str,
    lower_first: &str,
    lower_last: &str,
) -> (r: bool)
    ensures
        r == matches_spec(student@, user_input@, lower_input@, lower_first@, lower_last@),
{
    if starts_with(student.mat_nr.as_str(), user_input) {
        return true;
    }
    let first_last = String::from_str(lower_first).concat(" ").concat(lower_last);
    if contains(first_last.as_str(), lower_input) {
        return true;
    }
    let last_first = String::from_str(lower_last).concat(" ").concat(lower_first);
    contains(last_first.as_str(), lower_input)
}

/// What is typed selects a student, names compared without regard to case.
pub open spec fn suggests_spec(student: StudentView, input: Seq<char>) -> bool {
    matches_spec(
        student,
        input,
        lowercase(input),
        lowercase(student.first_name),
        lowercase(student.last_name),
    )
}

/// The line offered for a student: number, hyphen, first and last name.
pub open spec fn suggestion_spec(student: StudentView) -> Seq<char> {
    student.mat_nr + " - "@ + student.first_name + " "@ + student.last_name
}

/// The line offered for a student.
pub fn suggestion_line(student: &Student) -> (r: String)
    ensures
        r@ == suggestion_spec(student@),
{
    student.mat_nr.clone().concat(" - ").concat(student.first_name.as_str()).concat(" ").concat(
        student.last_name.as_str(),
    )
}

/// The lines offered for what is typed: one for each selected student, in the
/// order of the list.
pub open spec fn suggestions_spec(students: Seq<StudentView>, input: Seq<char>) -> Seq<Seq<char>>
    decreases students.len(),
{
    if students.len() == 0 {
        Seq::empty()
    } else if suggests_spec(students.last(), input) {
        suggestions_spec(students.drop_last(), input).push(suggestion_spec(students.last()))
    } else {
        suggestions_spec(students.drop_last(), input)
    }
}

/// The suggestions for what has been typed so far.
pub fn student_suggester(students: &Vec<Student>, user_input: &str) -> (r: Vec<String>)
    ensures
        crate::text::views(r@) == suggestions_spec(student_views(students@), user_input@),
{
    let ghost all = student_views(students@);
    let lower_input = to_lowercase(user_input);
    let mut lines: Vec<String> = Vec::new();
    let mut i: usize = 0;
    assert(crate::text::views(lines@) =~= suggestions_spec(all.take(0), user_input@));
    while i < students.len()
        invariant
            all == student_views(students@),
            lower_input@ == lowercase(user_input@),
            i <= students@.len(),
            crate::text::views(lines@) == suggestions_spec(all.take(i as int), user_input@),
        decreases students@.len() - i,
    {
        proof {
            assert(all.take(i + 1).drop_last() =~= all.take(i as int));
            assert(all.take(i + 1).last() == students@[i as int]@);
        }
        let student = &students[i];
        let lower_first = to_lowercase(student.first_name.as_str());
        let lower_last = to_lowercase(student.last_name.as_str());
        let ghost before = crate::text::views(lines@);
        if student_matches(
            student,
            user_input,
            lower_input.as_str(),
            lower_first.as_str(),
            lower_last.as_str(),
        ) {
            let line = suggestion_line(student);
            lines.push(line);
            assert(crate::text::views(lines@) =~= before.push(suggestion_spec(student@)));
        }
        i += 1;
    }
    proof {
        assert(all.take(students@.len() as int) =~= all);
    }
    lines
}

} // verus!
