//! The staging engine: the order in which a student's workspace is assembled.
//!
//! The engine never touches the file system. It hands out one command at a
//! time; the caller carries it out below the data root and reports what
//! happened as an event, on which the engine decides the next command. The
//! last command is `Finish`, with the outcome of the whole run.

use vstd::prelude::*;
use vstd::string::StringExecFns;
use crate::layout::{
    code_shortcut, code_shortcut_of, code_source, code_source_of, code_target, code_target_of,
    empty_scaffold_path, empty_scaffold_path_of, exercise_dir, exercise_dir_of, framework_paths,
    framework_paths_of, frameworks_dir, frameworks_dir_name, marker_content, marker_content_text,
    marker_path, marker_path_of, report_source, report_source_of, report_target,
    report_target_of, reports_dir, reports_dir_name, scaffold_path, scaffold_path_of,
    submissions_dir, submissions_dir_name, workspace_path, workspace_path_of,
};
use crate::lookup::{clone_names, find_student_file, first_match, matching_exercises, select_exercises};
use crate::laws::{consistent, lemma_begin_consistent, lemma_step_consistent};
use crate::matnr::{is_mat_nr, is_mat_nr_spec};
use crate::text::views;

verus! {

/// What to do with a workspace that is already there and not empty.
#[derive(Clone, Copy, Debug, PartialEq, Eq)]
pub enum FileExistsOptions {
    Overwrite,
    Cancel,
}

/// Why a run failed.
#[derive(Clone, Debug, PartialEq, Eq)]
pub enum StagingError {
    /// The matriculation number is malformed; nothing was touched.
    InvalidIdentifier,
    /// A file system operation failed: `context` holds the path it was about
    /// and what the caller reported. Or the caller's reply did not fit the
    /// command.
    Io { context: String },
}

pub enum StagingErrorView {
    InvalidIdentifier,
    Io { context: Seq<char> },
}

impl View for StagingError {
    type V = StagingErrorView;

    open spec fn view(&self) -> StagingErrorView {
        match *self {
            StagingError::InvalidIdentifier => StagingErrorView::InvalidIdentifier,
            StagingError::Io { context } => StagingErrorView::Io { context: context@ },
        }
    }
}

/// A staged workspace.
#[derive(Clone, Debug, PartialEq, Eq)]
pub struct Workspace {
    /// The workspace directory.
    pub path: String,
    /// The name of the report that was copied, if one was found.
    pub report: Option<String>,
    /// The exercises whose code was found and copied, in the order handled.
    pub populated: Vec<String>,
    /// The exercises for which no code was found, in the order handled.
    pub missing: Vec<String>,
}

pub struct WorkspaceView {
    pub path: Seq<char>,
    pub report: Option<Seq<char>>,
    pub populated: Seq<Seq<char>>,
    pub missing: Seq<Seq<char>>,
}

/// The characters of a name that may be absent.
pub open spec fn name_view(name: Option<String>) -> Option<Seq<char>> {
    match name {
        Some(n) => Some(n@),
        None => None,
    }
}

impl View for Workspace {
    type V = WorkspaceView;

    open spec fn view(&self) -> WorkspaceView {
        WorkspaceView {
            path: self.path@,
            report: name_view(self.report),
            populated: views(self.populated@),
            missing: views(self.missing@),
        }
    }
}

/// How a run ended when nothing failed.
#[derive(Clone, Debug, PartialEq, Eq)]
pub enum Staging {
    /// The workspace stands.
    Staged(Workspace),
    /// The workspace was there already and the caller chose to keep it.
    Cancelled,
}

pub enum StagingView {
    Staged(WorkspaceView),
    Cancelled,
}

impl View for Staging {
    type V = StagingView;

    open spec fn view(&self) -> StagingView {
        match *self {
            Staging::Staged(w) => StagingView::Staged(w@),
            Staging::Cancelled => StagingView::Cancelled,
        }
    }
}

/// The view of a run's outcome.
pub open spec fn outcome_view(outcome: Result<Staging, StagingError>) -> Result<
    StagingView,
    StagingErrorView,
> {
    match outcome {
        Ok(s) => Ok(s@),
        Err(e) => Err(e@),
    }
}

/// What the caller is asked to do next. Every path is relative to the data
/// root.
#[derive(Debug, PartialEq, Eq)]
pub enum Command {
    /// Report whether `path` is a directory with at least one entry.
    Probe { path: String },
    /// Ask what to do with the workspace at `path`, which is in the way.
    Ask { path: String },
    /// Delete the directory `path` with all that is in it.
    RemoveDirAll { path: String },
    /// Create the directory `path` and the missing directories above it.
    CreateDirAll { path: String },
    /// Write a file at `path` that holds `content`.
    WriteFile { path: String, content: String },
    /// Report the names of the entries of the directory `path`.
    List { path: String },
    /// Copy each of `sources`, with all that is in it, into the directory
    /// `target`, under its own name; all of them or the run fails.
    CopyItems { sources: Vec<String>, target: String },
    /// Copy the file `source` to `target`.
    Copy { source: String, target: String },
    /// Rename `source` to `target`.
    Rename { source: String, target: String },
    /// The run is over.
    Finish(Result<Staging, StagingError>),
}

pub enum CommandView {
    Probe { path: Seq<char> },
    Ask { path: Seq<char> },
    RemoveDirAll { path: Seq<char> },
    CreateDirAll { path: Seq<char> },
    WriteFile { path: Seq<char>, content: Seq<char> },
    List { path: Seq<char> },
    CopyItems { sources: Seq<Seq<char>>, target: Seq<char> },
    Copy { source: Seq<char>, target: Seq<char> },
    Rename { source: Seq<char>, target: Seq<char> },
    Finish(Result<StagingView, StagingErrorView>),
}

impl View for Command {
    type V = CommandView;

    open spec fn view(&self) -> CommandView {
        match *self {
            Command::Probe { path } => CommandView::Probe { path: path@ },
            Command::Ask { path } => CommandView::Ask { path: path@ },
            Command::RemoveDirAll { path } => CommandView::RemoveDirAll { path: path@ },
            Command::CreateDirAll { path } => CommandView::CreateDirAll { path: path@ },
            Command::WriteFile { path, content } => CommandView::WriteFile {
                path: path@,
                content: content@,
            },
            Command::List { path } => CommandView::List { path: path@ },
            Command::CopyItems { sources, target } => CommandView::CopyItems {
                sources: views(sources@),
                target: target@,
            },
            Command::Copy { source, target } => CommandView::Copy {
                source: source@,
                target: target@,
            },
            Command::Rename { source, target } => CommandView::Rename {
                source: source@,
                target: target@,
            },
            Command::Finish(outcome) => CommandView::Finish(outcome_view(outcome)),
        }
    }
}

/// What the caller reports after carrying out a command.
#[derive(Clone, Debug, PartialEq, Eq)]
pub enum Event {
    /// The reply to `Probe`: whether the directory is there and not empty.
    Probed(bool),
    /// The reply to `Ask`.
    Chosen(FileExistsOptions),
    /// The reply to `List`: the names of the entries, in listing order.
    Listed(Vec<String>),
    /// The command was carried out.
    Done,
    /// The command failed; the text says why.
    Failed(String),
}

pub enum EventView {
    Probed(bool),
    Chosen(FileExistsOptions),
    Listed(Seq<Seq<char>>),
    Done,
    Failed(Seq<char>),
}

impl View for Event {
    type V = EventView;

    open spec fn view(&self) -> EventView {
        match *self {
            Event::Probed(occupied) => EventView::Probed(occupied),
            Event::Chosen(choice) => EventView::Chosen(choice),
            Event::Listed(names) => EventView::Listed(views(names@)),
            Event::Done => EventView::Done,
            Event::Failed(context) => EventView::Failed(context@),
        }
    }
}

/// Which reply the engine waits for.
#[derive(Clone, Copy, Debug, PartialEq, Eq)]
pub enum Phase {
    Probing,
    Asking,
    Removing,
    Creating,
    Marking,
    ListingFrameworks,
    CopyingFrameworks,
    ListingReports,
    CopyingReport,
    ListingSubmissions,
    ListingExercise,
    CopyingCode,
    CopyingShortcut,
    MarkingEmpty,
    Finished,
}

/// The engine between two commands.
pub struct Stager {
    mat_nr: String,
    phase: Phase,
    frameworks: Vec<String>,
    report: Option<String>,
    exercises: Vec<String>,
    taken: usize,
    exercise: String,
    code_file: String,
    populated: Vec<String>,
    missing: Vec<String>,
}

pub struct StagerView {
    /// The student's matriculation number.
    pub mat_nr: Seq<char>,
    /// The reply that is waited for.
    pub phase: Phase,
    /// The names of the frameworks, as listed.
    pub frameworks: Seq<Seq<char>>,
    /// The report that was found.
    pub report: Option<Seq<char>>,
    /// The submission folders that bear a framework's name, in listing order.
    pub exercises: Seq<Seq<char>>,
    /// How many of `exercises` have been taken up.
    pub taken: nat,
    /// The exercise in work.
    pub exercise: Seq<char>,
    /// The student's file in the submission folder of the exercise in work.
    pub code_file: Seq<char>,
    /// The exercises whose code was copied.
    pub populated: Seq<Seq<char>>,
    /// The exercises without code.
    pub missing: Seq<Seq<char>>,
}

impl View for Stager {
    type V = StagerView;

    closed spec fn view(&self) -> StagerView {
        StagerView {
            mat_nr: self.mat_nr@,
            phase: self.phase,
            frameworks: views(self.frameworks@),
            report: name_view(self.report),
            exercises: views(self.exercises@),
            taken: self.taken as nat,
            exercise: self.exercise@,
            code_file: self.code_file@,
            populated: views(self.populated@),
            missing: views(self.missing@),
        }
    }
}

/// The engine before anything was reported, waiting in `phase`.
pub open spec fn fresh(mat_nr: Seq<char>, phase: Phase) -> StagerView {
    StagerView {
        mat_nr,
        phase,
        frameworks: Seq::empty(),
        report: None,
        exercises: Seq::empty(),
        taken: 0,
        exercise: Seq::empty(),
        code_file: Seq::empty(),
        populated: Seq::empty(),
        missing: Seq::empty(),
    }
}

/// How a run begins: a malformed matriculation number ends it at once, before
/// any command; a well-formed one has the workspace probed.
pub open spec fn spec_begin(mat_nr: Seq<char>) -> (StagerView, CommandView) {
    if is_mat_nr_spec(mat_nr) {
        (fresh(mat_nr, Phase::Probing), CommandView::Probe { path: workspace_path(mat_nr) })
    } else {
        (
            fresh(mat_nr, Phase::Finished),
            CommandView::Finish(Err(StagingErrorView::InvalidIdentifier)),
        )
    }
}

/// The run ends in failure.
pub open spec fn fail(s: StagerView, context: Seq<char>) -> (StagerView, CommandView) {
    (
        StagerView { phase: Phase::Finished, ..s },
        CommandView::Finish(Err(StagingErrorView::Io { context })),
    )
}

/// The path that the command in work is about: what a failure is blamed on.
pub open spec fn pending_path(s: StagerView) -> Seq<char> {
    match s.phase {
        Phase::Probing => workspace_path(s.mat_nr),
        Phase::Asking => workspace_path(s.mat_nr),
        Phase::Removing => workspace_path(s.mat_nr),
        Phase::Creating => workspace_path(s.mat_nr),
        Phase::Marking => marker_path(s.mat_nr),
        Phase::ListingFrameworks => frameworks_dir(),
        Phase::CopyingFrameworks => frameworks_dir(),
        Phase::ListingReports => reports_dir(),
        Phase::CopyingReport => match s.report {
            Some(report) => report_source(report),
            None => reports_dir(),
        },
        Phase::ListingSubmissions => submissions_dir(),
        Phase::ListingExercise => exercise_dir(s.exercise),
        Phase::CopyingCode => code_source(s.exercise, s.code_file),
        Phase::CopyingShortcut => code_source(s.exercise, s.code_file),
        Phase::MarkingEmpty => scaffold_path(s.mat_nr, s.exercise),
        Phase::Finished => Seq::empty(),
    }
}

/// What a failure is reported with: the path that the failed command was
/// about, then what the caller said of it.
pub open spec fn failure_context(s: StagerView, reported: Seq<char>) -> Seq<char> {
    pending_path(s) + ": "@ + reported
}

/// After a failure: the run ends, and the error names the path and what was
/// reported. With no command in work a failure is a reply that does not fit.
pub open spec fn on_failed(s: StagerView, reported: Seq<char>) -> (StagerView, CommandView) {
    if s.phase == Phase::Finished {
        unexpected(s)
    } else {
        fail(s, failure_context(s, reported))
    }
}

/// A reply that does not fit the command ends the run.
pub open spec fn unexpected(s: StagerView) -> (StagerView, CommandView) {
    fail(s, "unexpected reply"@)
}

/// The engine goes on to wait in `phase`, with `command` handed out.
pub open spec fn go(s: StagerView, phase: Phase, command: CommandView) -> (
    StagerView,
    CommandView,
) {
    (StagerView { phase, ..s }, command)
}

/// The next exercise is taken up: its submission folder is listed. When none
/// is left the run ends with the workspace and what was found for it.
pub open spec fn next_exercise(s: StagerView) -> (StagerView, CommandView) {
    if s.taken < s.exercises.len() {
        let exercise = s.exercises[s.taken as int];
        (
            StagerView { phase: Phase::ListingExercise, taken: s.taken + 1, exercise, ..s },
            CommandView::List { path: exercise_dir(exercise) },
        )
    } else {
        (
            StagerView { phase: Phase::Finished, ..s },
            CommandView::Finish(
                Ok(
                    StagingView::Staged(
                        WorkspaceView {
                            path: workspace_path(s.mat_nr),
                            report: s.report,
                            populated: s.populated,
                            missing: s.missing,
                        },
                    ),
                ),
            ),
        )
    }
}

/// After the probe: a workspace in the way is asked about, else it is created.
pub open spec fn on_probed(s: StagerView, occupied: bool) -> (StagerView, CommandView) {
    if s.phase != Phase::Probing {
        unexpected(s)
    } else if occupied {
        go(s, Phase::Asking, CommandView::Ask { path: workspace_path(s.mat_nr) })
    } else {
        go(s, Phase::Creating, CommandView::CreateDirAll { path: workspace_path(s.mat_nr) })
    }
}

/// After the choice: the old workspace is deleted, or the run ends cancelled.
pub open spec fn on_chosen(s: StagerView, choice: FileExistsOptions) -> (StagerView, CommandView) {
    if s.phase != Phase::Asking {
        unexpected(s)
    } else {
        match choice {
            FileExistsOptions::Overwrite => go(
                s,
                Phase::Removing,
                CommandView::RemoveDirAll { path: workspace_path(s.mat_nr) },
            ),
            FileExistsOptions::Cancel => go(
                s,
                Phase::Finished,
                CommandView::Finish(Ok(StagingView::Cancelled)),
            ),
        }
    }
}

/// After a listing.
pub open spec fn on_listed(s: StagerView, names: Seq<Seq<char>>) -> (StagerView, CommandView) {
    match s.phase {
        // Every framework is copied into the workspace in one go.
        Phase::ListingFrameworks => go(
            StagerView { frameworks: names, ..s },
            Phase::CopyingFrameworks,
            CommandView::CopyItems {
                sources: framework_paths(names),
                target: workspace_path(s.mat_nr),
            },
        ),
        // The first report that bears the number is copied; without one the
        // run goes on.
        Phase::ListingReports => match first_match(names, s.mat_nr) {
            Some(i) => go(
                StagerView { report: Some(names[i]), ..s },
                Phase::CopyingReport,
                CommandView::Copy {
                    source: report_source(names[i]),
                    target: report_target(s.mat_nr, names[i]),
                },
            ),
            None => go(
                s,
                Phase::ListingSubmissions,
                CommandView::List { path: submissions_dir() },
            ),
        },
        // Only the folders that bear a framework's name are exercises.
        Phase::ListingSubmissions => next_exercise(
            StagerView { exercises: matching_exercises(names, s.frameworks), taken: 0, ..s },
        ),
        // The first file that bears the number is the student's code; without
        // one the scaffold is marked empty.
        Phase::ListingExercise => match first_match(names, s.mat_nr) {
            Some(i) => go(
                StagerView { code_file: names[i], ..s },
                Phase::CopyingCode,
                CommandView::Copy {
                    source: code_source(s.exercise, names[i]),
                    target: code_target(s.mat_nr, s.exercise),
                },
            ),
            None => go(
                s,
                Phase::MarkingEmpty,
                CommandView::Rename {
                    source: scaffold_path(s.mat_nr, s.exercise),
                    target: empty_scaffold_path(s.mat_nr, s.exercise),
                },
            ),
        },
        _ => unexpected(s),
    }
}

/// After a command that was carried out.
pub open spec fn on_done(s: StagerView) -> (StagerView, CommandView) {
    match s.phase {
        Phase::Removing => go(
            s,
            Phase::Creating,
            CommandView::CreateDirAll { path: workspace_path(s.mat_nr) },
        ),
        Phase::Creating => go(
            s,
            Phase::Marking,
            CommandView::WriteFile { path: marker_path(s.mat_nr), content: marker_content() },
        ),
        Phase::Marking => go(s, Phase::ListingFrameworks, CommandView::List { path: frameworks_dir() }),
        Phase::CopyingFrameworks => go(
            s,
            Phase::ListingReports,
            CommandView::List { path: reports_dir() },
        ),
        Phase::CopyingReport => go(
            s,
            Phase::ListingSubmissions,
            CommandView::List { path: submissions_dir() },
        ),
        Phase::CopyingCode => go(
            s,
            Phase::CopyingShortcut,
            CommandView::Copy {
                source: code_source(s.exercise, s.code_file),
                target: code_shortcut(s.mat_nr, s.exercise),
            },
        ),
        Phase::CopyingShortcut => next_exercise(
            StagerView { populated: s.populated.push(s.exercise), ..s },
        ),
        Phase::MarkingEmpty => next_exercise(
            StagerView { missing: s.missing.push(s.exercise), ..s },
        ),
        _ => unexpected(s),
    }
}

/// The engine's rule: the state and the command that follow on a reply.
pub open spec fn spec_step(s: StagerView, e: EventView) -> (StagerView, CommandView) {
    match e {
        EventView::Failed(reported) => on_failed(s, reported),
        EventView::Probed(occupied) => on_probed(s, occupied),
        EventView::Chosen(choice) => on_chosen(s, choice),
        EventView::Listed(names) => on_listed(s, names),
        EventView::Done => on_done(s),
    }
}

impl Stager {
    /// Begins a run for one student. A malformed matriculation number is
    /// refused with the first command, before anything is touched.
    pub fn begin(mat_nr: &str) -> (r: (Stager, Command))
        ensures
            r.0@ == spec_begin(mat_nr@).0,
            r.1@ == spec_begin(mat_nr@).1,
            consistent(r.0@),
    {
        let valid = is_mat_nr(mat_nr);
        let stager = Stager {
            mat_nr: String::from_str(mat_nr),
            phase: if valid {
                Phase::Probing
            } else {
                Phase::Finished
            },
            frameworks: Vec::new(),
            report: None,
            exercises: Vec::new(),
            taken: 0,
            exercise: String::new(),
            code_file: String::new(),
            populated: Vec::new(),
            missing: Vec::new(),
        };
        let command = if valid {
            Command::Probe { path: workspace_path_of(mat_nr) }
        } else {
            Command::Finish(Err(StagingError::InvalidIdentifier))
        };
        proof {
            assert(views(stager.frameworks@) =~= Seq::empty());
            assert(views(stager.exercises@) =~= Seq::empty());
            assert(views(stager.populated@) =~= Seq::empty());
            assert(views(stager.missing@) =~= Seq::empty());
            lemma_begin_consistent(mat_nr@);
        }
        (stager, command)
    }

    /// Whether the run is over.
    pub fn is_finished(&self) -> (r: bool)
        ensures
            r == (self@.phase == Phase::Finished),
    {
        match self.phase {
            Phase::Finished => true,
            _ => false,
        }
    }

    /// The reply that is waited for.
    pub fn phase(&self) -> (r: Phase)
        ensures
            r == self@.phase,
    {
        self.phase
    }

    fn fail(&mut self, context: String) -> (command: Command)
        ensures
            final(self)@ == fail(old(self)@, context@).0,
            command@ == fail(old(self)@, context@).1,
    {
        self.phase = Phase::Finished;
        Command::Finish(Err(StagingError::Io { context }))
    }

    fn pending_path(&self) -> (r: String)
        ensures
            r@ == pending_path(self@),
    {
        match self.phase {
            Phase::Probing | Phase::Asking | Phase::Removing | Phase::Creating => {
                workspace_path_of(self.mat_nr.as_str())
            },
            Phase::Marking => marker_path_of(self.mat_nr.as_str()),
            Phase::ListingFrameworks | Phase::CopyingFrameworks => frameworks_dir_name(),
            Phase::ListingReports => reports_dir_name(),
            Phase::CopyingReport => match &self.report {
                Some(report) => report_source_of(report.as_str()),
                None => reports_dir_name(),
            },
            Phase::ListingSubmissions => submissions_dir_name(),
            Phase::ListingExercise => exercise_dir_of(self.exercise.as_str()),
            Phase::CopyingCode | Phase::CopyingShortcut => code_source_of(
                self.exercise.as_str(),
                self.code_file.as_str(),
            ),
            Phase::MarkingEmpty => scaffold_path_of(
                self.mat_nr.as_str(),
                self.exercise.as_str(),
            ),
            Phase::Finished => String::new(),
        }
    }

    fn on_failed(&mut self, reported: String) -> (command: Command)
        ensures
            final(self)@ == on_failed(old(self)@, reported@).0,
            command@ == on_failed(old(self)@, reported@).1,
    {
        match self.phase {
            Phase::Finished => self.unexpected(),
            _ => {
                let context = self.pending_path().concat(": ").concat(reported.as_str());
                self.fail(context)
            },
        }
    }

    fn unexpected(&mut self) -> (command: Command)
        ensures
            final(self)@ == unexpected(old(self)@).0,
            command@ == unexpected(old(self)@).1,
    {
        self.fail(String::from_str("unexpected reply"))
    }

    fn next_exercise(&mut self) -> (command: Command)
        ensures
            final(self)@ == next_exercise(old(self)@).0,
            command@ == next_exercise(old(self)@).1,
    {
        if self.taken < self.exercises.len() {
            let exercise: String = self.exercises[self.taken].clone();
            let path = exercise_dir_of(exercise.as_str());
            self.phase = Phase::ListingExercise;
            self.taken = self.taken + 1;
            self.exercise = exercise;
            Command::List { path }
        } else {
            self.phase = Phase::Finished;
            let workspace = Workspace {
                path: workspace_path_of(self.mat_nr.as_str()),
                report: self.report.clone(),
                populated: clone_names(&self.populated),
                missing: clone_names(&self.missing),
            };
            Command::Finish(Ok(Staging::Staged(workspace)))
        }
    }

    fn on_probed(&mut self, occupied: bool) -> (command: Command)
        ensures
            final(self)@ == on_probed(old(self)@, occupied).0,
            command@ == on_probed(old(self)@, occupied).1,
    {
        match self.phase {
            Phase::Probing => {
                let path = workspace_path_of(self.mat_nr.as_str());
                if occupied {
                    self.phase = Phase::Asking;
                    Command::Ask { path }
                } else {
                    self.phase = Phase::Creating;
                    Command::CreateDirAll { path }
                }
            },
            _ => self.unexpected(),
        }
    }

    fn on_chosen(&mut self, choice: FileExistsOptions) -> (command: Command)
        ensures
            final(self)@ == on_chosen(old(self)@, choice).0,
            command@ == on_chosen(old(self)@, choice).1,
    {
        match self.phase {
            Phase::Asking => match choice {
                FileExistsOptions::Overwrite => {
                    self.phase = Phase::Removing;
                    Command::RemoveDirAll { path: workspace_path_of(self.mat_nr.as_str()) }
                },
                FileExistsOptions::Cancel => {
                    self.phase = Phase::Finished;
                    Command::Finish(Ok(Staging::Cancelled))
                },
            },
            _ => self.unexpected(),
        }
    }

    fn on_listed(&mut self, names: Vec<String>) -> (command: Command)
        ensures
            final(self)@ == on_listed(old(self)@, views(names@)).0,
            command@ == on_listed(old(self)@, views(names@)).1,
    {
        match self.phase {
            Phase::ListingFrameworks => {
                let sources = framework_paths_of(&names);
                self.frameworks = names;
                self.phase = Phase::CopyingFrameworks;
                Command::CopyItems { sources, target: workspace_path_of(self.mat_nr.as_str()) }
            },
            Phase::ListingReports => match find_student_file(&names, self.mat_nr.as_str()) {
                Some(i) => {
                    let name: String = names[i].clone();
                    let source = report_source_of(name.as_str());
                    let target = report_target_of(self.mat_nr.as_str(), name.as_str());
                    self.report = Some(name);
                    self.phase = Phase::CopyingReport;
                    Command::Copy { source, target }
                },
                None => {
                    self.phase = Phase::ListingSubmissions;
                    Command::List { path: submissions_dir_name() }
                },
            },
            Phase::ListingSubmissions => {
                self.exercises = select_exercises(names, &self.frameworks);
                self.taken = 0;
                self.next_exercise()
            },
            Phase::ListingExercise => match find_student_file(&names, self.mat_nr.as_str()) {
                Some(i) => {
                    let name: String = names[i].clone();
                    let source = code_source_of(self.exercise.as_str(), name.as_str());
                    let target = code_target_of(self.mat_nr.as_str(), self.exercise.as_str());
                    self.code_file = name;
                    self.phase = Phase::CopyingCode;
                    Command::Copy { source, target }
                },
                None => {
                    self.phase = Phase::MarkingEmpty;
                    Command::Rename {
                        source: scaffold_path_of(self.mat_nr.as_str(), self.exercise.as_str()),
                        target: empty_scaffold_path_of(self.mat_nr.as_str(), self.exercise.as_str()),
                    }
                },
            },
            _ => self.unexpected(),
        }
    }

    fn on_done(&mut self) -> (command: Command)
        ensures
            final(self)@ == on_done(old(self)@).0,
            command@ == on_done(old(self)@).1,
    {
        match self.phase {
            Phase::Removing => {
                self.phase = Phase::Creating;
                Command::CreateDirAll { path: workspace_path_of(self.mat_nr.as_str()) }
            },
            Phase::Creating => {
                self.phase = Phase::Marking;
                Command::WriteFile {
                    path: marker_path_of(self.mat_nr.as_str()),
                    content: marker_content_text(),
                }
            },
            Phase::Marking => {
                self.phase = Phase::ListingFrameworks;
                Command::List { path: frameworks_dir_name() }
            },
            Phase::CopyingFrameworks => {
                self.phase = Phase::ListingReports;
                Command::List { path: reports_dir_name() }
            },
            Phase::CopyingReport => {
                self.phase = Phase::ListingSubmissions;
                Command::List { path: submissions_dir_name() }
            },
            Phase::CopyingCode => {
                self.phase = Phase::CopyingShortcut;
                Command::Copy {
                    source: code_source_of(self.exercise.as_str(), self.code_file.as_str()),
                    target: code_shortcut_of(self.mat_nr.as_str(), self.exercise.as_str()),
                }
            },
            Phase::CopyingShortcut => {
                let ghost before = views(self.populated@);
                self.populated.push(self.exercise.clone());
                assert(views(self.populated@) =~= before.push(self.exercise@));
                self.next_exercise()
            },
            Phase::MarkingEmpty => {
                let ghost before = views(self.missing@);
                self.missing.push(self.exercise.clone());
                assert(views(self.missing@) =~= before.push(self.exercise@));
                self.next_exercise()
            },
            _ => self.unexpected(),
        }
    }

    /// Takes the caller's reply to the last command and hands out the next
    /// one. A failure ends the run, whatever the command was, with an error
    /// that names the path the command was about; so does a reply that does
    /// not fit the command.
    pub fn step(&mut self, event: Event) -> (command: Command)
        ensures
            final(self)@ == spec_step(old(self)@, event@).0,
            command@ == spec_step(old(self)@, event@).1,
            consistent(old(self)@) ==> consistent(final(self)@),
    {
        proof {
            if consistent(self@) {
                lemma_step_consistent(self@, event@);
            }
        }
        match event {
            Event::Failed(reported) => self.on_failed(reported),
            Event::Probed(occupied) => self.on_probed(occupied),
            Event::Chosen(choice) => self.on_chosen(choice),
            Event::Listed(names) => self.on_listed(names),
            Event::Done => self.on_done(),
        }
    }
}

} // verus!
