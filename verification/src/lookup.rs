//! Finding a student's file in a directory listing, and the exercise folders
//! among the submission folders.

use vstd::prelude::*;
use crate::text::{contains, contains_seq, views};

verus! {

/// Entry `i` is the first of the listing whose name holds `mat_nr`.
pub open spec fn is_first_match(entries: Seq<Seq<char>>, mat_nr: Seq<char>, i: int) -> bool {
    &&& 0 <= i < entries.len()
    &&& contains_seq(entries[i], mat_nr)
    &&& forall|j: int| 0 <= j < i ==> !contains_seq(#[trigger] entries[j], mat_nr)
}

/// The position of the first entry whose name holds `mat_nr`, if there is one.
pub open spec fn first_match(entries: Seq<Seq<char>>, mat_nr: Seq<char>) -> Option<int> {
    if exists|i: int| is_first_match(entries, mat_nr, i) {
        Some(choose|i: int| is_first_match(entries, mat_nr, i))
    } else {
        None
    }
}

/// A listing has at most one first match.
pub proof fn lemma_first_match_unique(entries: Seq<Seq<char>>, mat_nr: Seq<char>, a: int, b: int)
    requires
        is_first_match(entries, mat_nr, a),
        is_first_match(entries, mat_nr, b),
    ensures
        a == b,
{
    if a < b {
        assert(!contains_seq(entries[a], mat_nr));
    }
    if b < a {
        assert(!contains_seq(entries[b], mat_nr));
    }
}

/// The first match is the one position that `is_first_match` holds of; there
/// is none exactly when no entry holds `mat_nr`.
pub proof fn lemma_first_match(entries: Seq<Seq<char>>, mat_nr: Seq<char>)
    ensures
        match first_match(entries, mat_nr) {
            Some(i) => is_first_match(entries, mat_nr, i),
            None => forall|j: int|
                0 <= j < entries.len() ==> !contains_seq(#[trigger] entries[j], mat_nr),
        },
{
    if first_match(entries, mat_nr) is None {
        assert forall|j: int| 0 <= j < entries.len() implies !contains_seq(
            #[trigger] entries[j],
            mat_nr,
        ) by {
            if contains_seq(entries[j], mat_nr) {
                lemma_some_first_match(entries, mat_nr, j);
            }
        }
    }
}

/// Where some entry up to `j` holds `mat_nr`, there is a first one.
proof fn lemma_some_first_match(entries: Seq<Seq<char>>, mat_nr: Seq<char>, j: int)
    requires
        0 <= j < entries.len(),
        contains_seq(entries[j], mat_nr),
    ensures
        exists|i: int| is_first_match(entries, mat_nr, i),
    decreases j,
{
    if exists|k: int| 0 <= k < j && contains_seq(#[trigger] entries[k], mat_nr) {
        let k = choose|k: int| 0 <= k < j && contains_seq(#[trigger] entries[k], mat_nr);
        lemma_some_first_match(entries, mat_nr, k);
    } else {
        assert(is_first_match(entries, mat_nr, j));
    }
}

/// The first entry of a directory listing whose name holds the matriculation
/// number somewhere, by its position. Of several such entries the one listed
/// first is taken.
pub fn find_student_file(entries: &Vec<String>, mat_nr: &str) -> (r: Option<usize>)
    ensures
        match r {
            Some(i) => first_match(views(entries@), mat_nr@) == Some(i as int),
            None => first_match(views(entries@), mat_nr@) is None,
        },
{
    let ghost names = views(entries@);
    let mut i: usize = 0;
    while i < entries.len()
        invariant
            names == views(entries@),
            i <= entries@.len(),
            forall|j: int| 0 <= j < i ==> !contains_seq(#[trigger] names[j], mat_nr@),
        decreases entries@.len() - i,
    {
        if contains(entries[i].as_str(), mat_nr) {
            proof {
                assert(is_first_match(names, mat_nr@, i as int));
                lemma_first_match(names, mat_nr@);
                lemma_first_match_unique(names, mat_nr@, i as int, first_match(names, mat_nr@)->0);
            }
            return Some(i);
        }
        i += 1;
    }
    proof {
        assert(forall|k: int| !is_first_match(names, mat_nr@, k));
    }
    None
}

/// The names of `listed` that are also framework names, in listing order.
pub open spec fn matching_exercises(
    listed: Seq<Seq<char>>,
    frameworks: Seq<Seq<char>>,
) -> Seq<Seq<char>>
    decreases listed.len(),
{
    if listed.len() == 0 {
        Seq::empty()
    } else if frameworks.contains(listed.last()) {
        matching_exercises(listed.drop_last(), frameworks).push(listed.last())
    } else {
        matching_exercises(listed.drop_last(), frameworks)
    }
}

/// Whether `name` is one of `names`, compared character by character.
pub fn contains_name(names: &Vec<String>, name: &String) -> (r: bool)
    ensures
        r == views(names@).contains(name@),
{
    let mut i: usize = 0;
    while i < names.len()
        invariant
            i <= names@.len(),
            forall|j: int| 0 <= j < i ==> (#[trigger] views(names@)[j]) != name@,
        decreases names@.len() - i,
    {
        if names[i] == *name {
            assert(views(names@)[i as int] == name@);
            return true;
        }
        i += 1;
    }
    false
}

/// The submission folders that belong to an exercise: those of `listed` whose
/// name is exactly the name of a framework.
pub fn select_exercises(listed: Vec<String>, frameworks: &Vec<String>) -> (r: Vec<String>)
    ensures
        views(r@) == matching_exercises(views(listed@), views(frameworks@)),
{
    let ghost all = views(listed@);
    let mut chosen: Vec<String> = Vec::new();
    let mut i: usize = 0;
    assert(views(chosen@) =~= matching_exercises(all.take(0), views(frameworks@)));
    while i < listed.len()
        invariant
            all == views(listed@),
            i <= listed@.len(),
            views(chosen@) == matching_exercises(all.take(i as int), views(frameworks@)),
        decreases listed@.len() - i,
    {
        proof {
            assert(all.take(i + 1).drop_last() =~= all.take(i as int));
            assert(all.take(i + 1).last() == listed@[i as int]@);
        }
        let ghost before = views(chosen@);
        if contains_name(frameworks, &listed[i]) {
            chosen.push(listed[i].clone());
            assert(views(chosen@) =~= before.push(listed@[i as int]@));
        }
        i += 1;
    }
    proof {
        assert(all.take(listed@.len() as int) =~= all);
    }
    chosen
}

/// A copy of a list of names.
pub fn clone_names(names: &Vec<String>) -> (r: Vec<String>)
    ensures
        views(r@) == views(names@),
{
    let mut copy: Vec<String> = Vec::new();
    let mut i: usize = 0;
    while i < names.len()
        invariant
            i <= names@.len(),
            views(copy@) == views(names@).take(i as int),
        decreases names@.len() - i,
    {
        let ghost before = views(copy@);
        copy.push(names[i].clone());
        assert(views(copy@) =~= before.push(names@[i as int]@));
        i += 1;
        assert(views(copy@) =~= views(names@).take(i as int));
    }
    assert(views(names@).take(names@.len() as int) =~= views(names@));
    copy
}

} // verus!
