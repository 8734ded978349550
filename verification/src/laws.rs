//! What holds of every run of the staging engine, proved over its rule.

use vstd::prelude::*;
use crate::layout::{
    code_shortcut, code_source, code_target, empty_scaffold_path, marker_content, marker_path,
    scaffold_path, submissions_dir, workspace_path,
};
use crate::lookup::{first_match, lemma_first_match, matching_exercises};
use crate::matnr::is_mat_nr_spec;
use crate::staging::{
    failure_context, spec_begin, spec_step, CommandView, FileExistsOptions, EventView, Phase, StagerView,
    StagingErrorView, StagingView,
};
use crate::text::{contains_seq, has_prefix};

verus! {

/// The command changes something on disk.
pub open spec fn changes_files(command: CommandView) -> bool {
    match command {
        CommandView::RemoveDirAll { .. } => true,
        CommandView::CreateDirAll { .. } => true,
        CommandView::WriteFile { .. } => true,
        CommandView::CopyItems { .. } => true,
        CommandView::Copy { .. } => true,
        CommandView::Rename { .. } => true,
        _ => false,
    }
}

/// The command puts frameworks, a report or code into the workspace.
pub open spec fn populates(command: CommandView) -> bool {
    match command {
        CommandView::CopyItems { .. } => true,
        CommandView::Copy { .. } => true,
        CommandView::Rename { .. } => true,
        _ => false,
    }
}

/// In this phase the marker file has been written.
pub open spec fn marked(phase: Phase) -> bool {
    match phase {
        Phase::ListingFrameworks => true,
        Phase::CopyingFrameworks => true,
        Phase::ListingReports => true,
        Phase::CopyingReport => true,
        Phase::ListingSubmissions => true,
        Phase::ListingExercise => true,
        Phase::CopyingCode => true,
        Phase::CopyingShortcut => true,
        Phase::MarkingEmpty => true,
        _ => false,
    }
}

/// In this phase an exercise is in work.
pub open spec fn in_work(phase: Phase) -> bool {
    match phase {
        Phase::ListingExercise => true,
        Phase::CopyingCode => true,
        Phase::CopyingShortcut => true,
        Phase::MarkingEmpty => true,
        _ => false,
    }
}

/// In this phase the reports have not been listed yet.
pub open spec fn before_report(phase: Phase) -> bool {
    match phase {
        Phase::Probing => true,
        Phase::Asking => true,
        Phase::Removing => true,
        Phase::Creating => true,
        Phase::Marking => true,
        Phase::ListingFrameworks => true,
        Phase::CopyingFrameworks => true,
        Phase::ListingReports => true,
        _ => false,
    }
}

/// In this phase the submission folders have not been listed yet.
pub open spec fn before_exercises(phase: Phase) -> bool {
    before_report(phase) || phase == Phase::CopyingReport || phase == Phase::ListingSubmissions
}

/// How many exercises are done with.
pub open spec fn settled(s: StagerView) -> int {
    if in_work(s.phase) {
        s.taken - 1
    } else {
        s.taken as int
    }
}

/// What holds of the engine between any two commands of a run that is not
/// over: the exercise in work is the one taken up last; every exercise bears a
/// framework's name; every exercise done with is recorded as populated or as
/// missing, and nothing else is; before the reports are listed no report is
/// recorded.
pub open spec fn consistent(s: StagerView) -> bool {
    s.phase == Phase::Finished || {
        &&& s.taken <= s.exercises.len()
        &&& in_work(s.phase) ==> s.taken >= 1 && s.exercise == s.exercises[s.taken - 1]
        &&& before_exercises(s.phase) ==> s.exercises.len() == 0 && s.populated.len() == 0
            && s.missing.len() == 0
        &&& before_report(s.phase) ==> s.report is None
        &&& forall|k: int|
            0 <= k < settled(s) ==> s.populated.contains(#[trigger] s.exercises[k])
                || s.missing.contains(s.exercises[k])
        &&& forall|k: int|
            0 <= k < s.populated.len() ==> s.exercises.contains(#[trigger] s.populated[k])
        &&& forall|k: int|
            0 <= k < s.missing.len() ==> s.exercises.contains(#[trigger] s.missing[k])
        &&& forall|k: int|
            0 <= k < s.exercises.len() ==> s.frameworks.contains(#[trigger] s.exercises[k])
    }
}

/// A name is among the exercises exactly when it is the name of a listed
/// submission folder and of a framework.
pub proof fn lemma_matching_exercises(
    listed: Seq<Seq<char>>,
    frameworks: Seq<Seq<char>>,
    name: Seq<char>,
)
    ensures
        matching_exercises(listed, frameworks).contains(name) <==> listed.contains(name)
            && frameworks.contains(name),
    decreases listed.len(),
{
    if listed.len() > 0 {
        let front = listed.drop_last();
        let chosen = matching_exercises(front, frameworks);
        lemma_matching_exercises(front, frameworks, name);
        if listed.contains(name) {
            let i = choose|i: int| 0 <= i < listed.len() && listed[i] == name;
            if i < listed.len() - 1 {
                assert(front[i] == name);
            }
        }
        if front.contains(name) {
            let i = choose|i: int| 0 <= i < front.len() && front[i] == name;
            assert(listed[i] == name);
        }
        assert(listed[listed.len() - 1] == listed.last());
        if frameworks.contains(listed.last()) {
            let all = chosen.push(listed.last());
            assert(all[all.len() - 1] == listed.last());
            if chosen.contains(name) {
                let i = choose|i: int| 0 <= i < chosen.len() && chosen[i] == name;
                assert(all[i] == name);
            }
            if all.contains(name) {
                let i = choose|i: int| 0 <= i < all.len() && all[i] == name;
                if i < chosen.len() {
                    assert(chosen[i] == name);
                }
            }
        }
    }
}

/// A run begins consistent.
pub proof fn lemma_begin_consistent(mat_nr: Seq<char>)
    ensures
        consistent(spec_begin(mat_nr).0),
{
}

/// Every step of a run keeps the engine consistent.
pub proof fn lemma_step_consistent(s: StagerView, e: EventView)
    requires
        consistent(s),
    ensures
        consistent(spec_step(s, e).0),
{
    let t = spec_step(s, e).0;
    if t.phase != Phase::Finished {
        match e {
            EventView::Listed(names) => {
                if s.phase == Phase::ListingSubmissions {
                    assert forall|k: int| 0 <= k < t.exercises.len() implies t.frameworks.contains(
                        #[trigger] t.exercises[k],
                    ) by {
                        assert(t.exercises.contains(t.exercises[k]));
                        lemma_matching_exercises(names, s.frameworks, t.exercises[k]);
                    }
                }
            },
            EventView::Done => {
                if s.phase == Phase::CopyingShortcut || s.phase == Phase::MarkingEmpty {
                    lemma_recorded(s);
                }
            },
            _ => {},
        }
    }
}

/// Recording the exercise in work keeps what was recorded, and adds it.
proof fn lemma_recorded(s: StagerView)
    requires
        consistent(s),
        s.phase == Phase::CopyingShortcut || s.phase == Phase::MarkingEmpty,
    ensures
        ({
            let t = spec_step(s, EventView::Done).0;
            &&& forall|k: int|
                0 <= k < s.taken ==> t.populated.contains(#[trigger] s.exercises[k])
                    || t.missing.contains(s.exercises[k])
            &&& forall|k: int|
                0 <= k < t.populated.len() ==> s.exercises.contains(#[trigger] t.populated[k])
            &&& forall|k: int|
                0 <= k < t.missing.len() ==> s.exercises.contains(#[trigger] t.missing[k])
        }),
{
    let t = spec_step(s, EventView::Done).0;
    assert forall|k: int| 0 <= k < s.taken implies t.populated.contains(#[trigger] s.exercises[k])
        || t.missing.contains(s.exercises[k]) by {
        let name = s.exercises[k];
        if k < s.taken - 1 {
            if s.populated.contains(name) {
                let i = choose|i: int| 0 <= i < s.populated.len() && s.populated[i] == name;
                assert(t.populated[i] == name);
            } else {
                let i = choose|i: int| 0 <= i < s.missing.len() && s.missing[i] == name;
                assert(t.missing[i] == name);
            }
        } else {
            if s.phase == Phase::CopyingShortcut {
                assert(t.populated[t.populated.len() - 1] == name);
            } else {
                assert(t.missing[t.missing.len() - 1] == name);
            }
        }
    }
}

/// A run that ends with a staged workspace has accounted for every exercise:
/// each submission folder that bears a framework's name is reported as
/// populated or as missing, and nothing is reported but such folders.
pub proof fn lemma_every_exercise_is_reported(s: StagerView, e: EventView)
    requires
        consistent(s),
    ensures
        match spec_step(s, e).1 {
            CommandView::Finish(Ok(StagingView::Staged(w))) => {
                let exercises = spec_step(s, e).0.exercises;
                &&& forall|k: int|
                    0 <= k < exercises.len() ==> w.populated.contains(#[trigger] exercises[k])
                        || w.missing.contains(exercises[k])
                &&& forall|k: int|
                    0 <= k < w.populated.len() ==> exercises.contains(#[trigger] w.populated[k])
                        && s.frameworks.contains(w.populated[k])
                &&& forall|k: int|
                    0 <= k < w.missing.len() ==> exercises.contains(#[trigger] w.missing[k])
                        && s.frameworks.contains(w.missing[k])
            },
            _ => true,
        },
{
    match e {
        EventView::Done => {
            if s.phase == Phase::CopyingShortcut || s.phase == Phase::MarkingEmpty {
                lemma_recorded(s);
            }
        },
        _ => {},
    }
    match spec_step(s, e).1 {
        CommandView::Finish(Ok(StagingView::Staged(w))) => {
            assert forall|k: int| 0 <= k < w.populated.len() implies s.frameworks.contains(
                #[trigger] w.populated[k],
            ) by {
                lemma_listed_name_is_framework(s, e, w.populated[k]);
            }
            assert forall|k: int| 0 <= k < w.missing.len() implies s.frameworks.contains(
                #[trigger] w.missing[k],
            ) by {
                lemma_listed_name_is_framework(s, e, w.missing[k]);
            }
        },
        _ => {},
    }
}

/// Every exercise after a step bears the name of a framework known before it.
proof fn lemma_listed_name_is_framework(s: StagerView, e: EventView, name: Seq<char>)
    requires
        consistent(s),
        s.phase != Phase::Finished,
        s.phase != Phase::ListingFrameworks,
        spec_step(s, e).0.exercises.contains(name),
    ensures
        s.frameworks.contains(name),
{
    lemma_step_consistent(s, e);
    match e {
        EventView::Listed(names) => {
            if s.phase == Phase::ListingSubmissions {
                lemma_matching_exercises(names, s.frameworks, name);
            }
        },
        _ => {},
    }
}

/// Folders that bear no framework's name are passed over: after the
/// submission folders are listed, the exercises are exactly the listed names
/// that are also framework names, and the listing never fails the run.
pub proof fn lemma_other_folders_are_ignored(
    s: StagerView,
    listed: Seq<Seq<char>>,
    name: Seq<char>,
)
    requires
        s.phase == Phase::ListingSubmissions,
    ensures
        spec_step(s, EventView::Listed(listed)).0.exercises.contains(name) <==> listed.contains(
            name,
        ) && s.frameworks.contains(name),
        !(spec_step(s, EventView::Listed(listed)).1 matches CommandView::Finish(Err(_))),
        !populates(spec_step(s, EventView::Listed(listed)).1),
{
    lemma_matching_exercises(listed, s.frameworks, name);
}

/// Overwriting starts afresh: once the old workspace is deleted, the engine
/// stands exactly where it stands when no workspace was in the way, and hands
/// out the same command. As every later command follows from the state and the
/// replies alone, the run from there on is the run from a clean state.
pub proof fn lemma_overwrite_starts_afresh(mat_nr: Seq<char>)
    requires
        is_mat_nr_spec(mat_nr),
    ensures
        ({
            let begun = spec_begin(mat_nr).0;
            let clean = spec_step(begun, EventView::Probed(false));
            let asked = spec_step(begun, EventView::Probed(true));
            let chosen = spec_step(asked.0, EventView::Chosen(FileExistsOptions::Overwrite));
            let removed = spec_step(chosen.0, EventView::Done);
            &&& asked.1 == (CommandView::Ask { path: workspace_path(mat_nr) })
            &&& chosen.1 == (CommandView::RemoveDirAll { path: workspace_path(mat_nr) })
            &&& removed == clean
            &&& clean.1 == (CommandView::CreateDirAll { path: workspace_path(mat_nr) })
        }),
{
}

/// The commands that the engine hands out, one for each reply of `replies`.
pub open spec fn spec_run(s: StagerView, replies: Seq<EventView>) -> Seq<CommandView>
    decreases replies.len(),
{
    if replies.len() == 0 {
        Seq::empty()
    } else {
        seq![spec_step(s, replies[0]).1] + spec_run(
            spec_step(s, replies[0]).0,
            replies.drop_first(),
        )
    }
}

/// A run that overwrites goes on like a clean run: once the old workspace is
/// asked about and deleted, the same replies draw the same commands as in a
/// run that found no workspace in the way.
pub proof fn lemma_overwrite_runs_like_clean(mat_nr: Seq<char>, replies: Seq<EventView>)
    requires
        is_mat_nr_spec(mat_nr),
    ensures
        ({
            let begun = spec_begin(mat_nr).0;
            let clean = spec_run(begun, seq![EventView::Probed(false)] + replies);
            let again = spec_run(
                begun,
                seq![
                    EventView::Probed(true),
                    EventView::Chosen(FileExistsOptions::Overwrite),
                    EventView::Done,
                ] + replies,
            );
            again == seq![
                CommandView::Ask { path: workspace_path(mat_nr) },
                CommandView::RemoveDirAll { path: workspace_path(mat_nr) },
            ] + clean
        }),
{
    let begun = spec_begin(mat_nr).0;
    let first = seq![EventView::Probed(false)] + replies;
    let second = seq![
        EventView::Probed(true),
        EventView::Chosen(FileExistsOptions::Overwrite),
        EventView::Done,
    ] + replies;
    let asked = spec_step(begun, EventView::Probed(true)).0;
    let chosen = spec_step(asked, EventView::Chosen(FileExistsOptions::Overwrite)).0;
    let created = spec_step(begun, EventView::Probed(false)).0;
    lemma_overwrite_starts_afresh(mat_nr);
    assert(first.drop_first() =~= replies);
    let second_1 = seq![EventView::Chosen(FileExistsOptions::Overwrite), EventView::Done] + replies;
    let second_2 = seq![EventView::Done] + replies;
    assert(second.drop_first() =~= second_1);
    assert(second_1.drop_first() =~= second_2);
    assert(second_2.drop_first() =~= replies);
    assert(spec_run(chosen, second_2) == seq![
        CommandView::CreateDirAll { path: workspace_path(mat_nr) },
    ] + spec_run(created, replies));
    assert(spec_run(asked, second_1) == seq![
        CommandView::RemoveDirAll { path: workspace_path(mat_nr) },
    ] + spec_run(chosen, second_2));
    assert(spec_run(begun, second) == seq![CommandView::Ask { path: workspace_path(mat_nr) }]
        + spec_run(asked, second_1));
    assert(spec_run(begun, first) == seq![
        CommandView::CreateDirAll { path: workspace_path(mat_nr) },
    ] + spec_run(created, replies));
    assert(spec_run(begun, second) =~= seq![
        CommandView::Ask { path: workspace_path(mat_nr) },
        CommandView::RemoveDirAll { path: workspace_path(mat_nr) },
    ] + spec_run(begun, first));
}

/// A cancelled run changes nothing on disk: between its begin and its end the
/// engine only probes and asks.
pub proof fn lemma_cancel_changes_nothing(mat_nr: Seq<char>)
    requires
        is_mat_nr_spec(mat_nr),
    ensures
        ({
            let begun = spec_begin(mat_nr);
            let asked = spec_step(begun.0, EventView::Probed(true));
            let ended = spec_step(asked.0, EventView::Chosen(FileExistsOptions::Cancel));
            &&& !changes_files(begun.1)
            &&& !changes_files(asked.1)
            &&& ended.1 == CommandView::Finish(Ok(StagingView::Cancelled))
            &&& ended.0.phase == Phase::Finished
        }),
{
}

/// The paths at which a command changes something.
pub open spec fn changed_paths(command: CommandView) -> Seq<Seq<char>> {
    match command {
        CommandView::RemoveDirAll { path } => seq![path],
        CommandView::CreateDirAll { path } => seq![path],
        CommandView::WriteFile { path, .. } => seq![path],
        CommandView::CopyItems { target, .. } => seq![target],
        CommandView::Copy { target, .. } => seq![target],
        CommandView::Rename { source, target } => seq![source, target],
        _ => Seq::empty(),
    }
}

/// A string begins with its own front part.
proof fn lemma_begins_with(front: Seq<char>, rest: Seq<char>)
    ensures
        has_prefix(front + rest, front),
{
    assert((front + rest).subrange(0, 0 + front.len() as int) =~= front);
}

/// Whatever the engine has changed lies in the student's workspace: every
/// path at which a command changes something is the workspace directory or a
/// path that begins with it. The frameworks and the submissions are only read.
pub proof fn lemma_changes_stay_in_workspace(s: StagerView, e: EventView, i: int)
    requires
        0 <= i < changed_paths(spec_step(s, e).1).len(),
    ensures
        has_prefix(changed_paths(spec_step(s, e).1)[i], workspace_path(s.mat_nr)),
{
    let w = workspace_path(s.mat_nr);
    let path = changed_paths(spec_step(s, e).1)[i];
    lemma_begins_with(w, Seq::empty());
    assert(w + Seq::<char>::empty() =~= w);
    if path != w {
        let rest = path.subrange(w.len() as int, path.len() as int);
        match spec_step(s, e).1 {
            CommandView::WriteFile { .. } => {
                assert(path =~= w + rest);
            },
            CommandView::Copy { .. } => {
                assert(path =~= w + rest);
            },
            CommandView::Rename { .. } => {
                assert(path =~= w + rest);
            },
            _ => {},
        }
        lemma_begins_with(w, rest);
    }
}

/// A malformed matriculation number ends the run before any command.
pub proof fn lemma_malformed_number_changes_nothing(mat_nr: Seq<char>)
    requires
        !is_mat_nr_spec(mat_nr),
    ensures
        spec_begin(mat_nr).1 == CommandView::Finish(Err(StagingErrorView::InvalidIdentifier)),
        spec_begin(mat_nr).0.phase == Phase::Finished,
{
}

/// The marker comes first. The only file the engine ever has written is the
/// marker, with the pattern that ignores everything, and it is the command
/// that follows the creation of the workspace; nothing is put into the
/// workspace before the marker is reported written.
pub proof fn lemma_marker_comes_first(s: StagerView, e: EventView)
    ensures
        s.phase == Phase::Creating && e == EventView::Done ==> spec_step(s, e).1 == (
        CommandView::WriteFile { path: marker_path(s.mat_nr), content: marker_content() }),
        spec_step(s, e).1 is WriteFile ==> s.phase == Phase::Creating && e == EventView::Done,
        populates(spec_step(s, e).1) ==> marked(s.phase),
        marked(spec_step(s, e).0.phase) ==> marked(s.phase) || (s.phase == Phase::Marking && e
            == EventView::Done),
{
}

/// How far a run has come, by the reply it waits for. The phases in which an
/// exercise is in work count as one.
pub open spec fn progress(phase: Phase) -> nat {
    match phase {
        Phase::Probing => 0,
        Phase::Asking => 1,
        Phase::Removing => 2,
        Phase::Creating => 3,
        Phase::Marking => 4,
        Phase::ListingFrameworks => 5,
        Phase::CopyingFrameworks => 6,
        Phase::ListingReports => 7,
        Phase::CopyingReport => 8,
        Phase::ListingSubmissions => 9,
        Phase::ListingExercise => 10,
        Phase::CopyingCode => 10,
        Phase::CopyingShortcut => 10,
        Phase::MarkingEmpty => 10,
        Phase::Finished => 11,
    }
}

/// A run only moves forward: every step before the exercises leads to a later
/// phase, and from the exercises on no step leads back before them. So the
/// workspace is created once and its marker is written once.
pub proof fn lemma_run_moves_forward(s: StagerView, e: EventView)
    ensures
        progress(s.phase) < 10 ==> progress(spec_step(s, e).0.phase) > progress(s.phase),
        progress(s.phase) >= 10 ==> progress(spec_step(s, e).0.phase) >= 10,
{
}

/// A missing report does not stop the run: where no listed report bears the
/// matriculation number, the engine records none and goes on to the
/// submission folders.
pub proof fn lemma_missing_report_goes_on(s: StagerView, listed: Seq<Seq<char>>)
    requires
        consistent(s),
        s.phase == Phase::ListingReports,
        forall|j: int| 0 <= j < listed.len() ==> !contains_seq(#[trigger] listed[j], s.mat_nr),
    ensures
        spec_step(s, EventView::Listed(listed)).1 == (CommandView::List {
            path: submissions_dir(),
        }),
        spec_step(s, EventView::Listed(listed)).0.report is None,
        spec_step(s, EventView::Listed(listed)).0.phase == Phase::ListingSubmissions,
{
    lemma_first_match(listed, s.mat_nr);
}

/// No exercise in work is left unflagged. Where a listed file bears the
/// matriculation number, the first such file is copied into the scaffold and
/// to the workspace root, and the exercise is recorded as populated; where
/// none does, the scaffold is renamed to its empty form and the exercise is
/// recorded as missing.
pub proof fn lemma_exercise_is_filled_or_flagged(s: StagerView, listed: Seq<Seq<char>>)
    requires
        s.phase == Phase::ListingExercise,
    ensures
        ({
            let first = spec_step(s, EventView::Listed(listed));
            let second = spec_step(first.0, EventView::Done);
            let third = spec_step(second.0, EventView::Done);
            match first_match(listed, s.mat_nr) {
                Some(i) => {
                    &&& first.1 == (CommandView::Copy {
                        source: code_source(s.exercise, listed[i]),
                        target: code_target(s.mat_nr, s.exercise),
                    })
                    &&& second.1 == (CommandView::Copy {
                        source: code_source(s.exercise, listed[i]),
                        target: code_shortcut(s.mat_nr, s.exercise),
                    })
                    &&& third.0.populated == s.populated.push(s.exercise)
                    &&& third.0.missing == s.missing
                },
                None => {
                    &&& first.1 == (CommandView::Rename {
                        source: scaffold_path(s.mat_nr, s.exercise),
                        target: empty_scaffold_path(s.mat_nr, s.exercise),
                    })
                    &&& second.0.missing == s.missing.push(s.exercise)
                    &&& second.0.populated == s.populated
                },
            }
        }),
{
}

/// The frameworks are fixed once they are listed, and the exercises once the
/// submission folders are listed: no other step changes them.
pub proof fn lemma_exercises_stay(s: StagerView, e: EventView)
    ensures
        s.phase != Phase::ListingFrameworks ==> spec_step(s, e).0.frameworks == s.frameworks,
        s.phase != Phase::ListingSubmissions ==> spec_step(s, e).0.exercises == s.exercises,
        spec_step(s, e).0.mat_nr == s.mat_nr,
{
}

/// An exercise is recorded only after its work is reported done: as populated
/// once both copies of the code are made, as missing once its scaffold is
/// renamed. Each time it is the exercise in work that is recorded.
pub proof fn lemma_recorded_after_the_work(s: StagerView, e: EventView)
    ensures
        spec_step(s, e).0.populated == if s.phase == Phase::CopyingShortcut && e
            == EventView::Done {
            s.populated.push(s.exercise)
        } else {
            s.populated
        },
        spec_step(s, e).0.missing == if s.phase == Phase::MarkingEmpty && e == EventView::Done {
            s.missing.push(s.exercise)
        } else {
            s.missing
        },
{
}

/// A failure is final: whatever command was in work, the run ends with an
/// error that names the path the command was about and what was reported.
pub proof fn lemma_failure_ends_the_run(s: StagerView, reported: Seq<char>)
    requires
        s.phase != Phase::Finished,
    ensures
        spec_step(s, EventView::Failed(reported)).1 == CommandView::Finish(
            Err(StagingErrorView::Io { context: failure_context(s, reported) }),
        ),
        spec_step(s, EventView::Failed(reported)).0.phase == Phase::Finished,
        !changes_files(spec_step(s, EventView::Failed(reported)).1),
{
}

} // verus!
