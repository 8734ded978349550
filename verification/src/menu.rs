//! What the user is offered: the choices of each question as they are shown,
//! and what can be opened once a workspace stands.

use vstd::prelude::*;
use vstd::string::StringExecFns;
use crate::staging::{FileExistsOptions, Workspace, WorkspaceView};
use crate::text::views;

verus! {

/// The answer to a question that can only be confirmed or declined.
#[derive(Clone, Copy, Debug, PartialEq, Eq)]
pub enum OkCancel {
    Confirm,
    Cancel,
}

impl OkCancel {
    pub open spec fn label_spec(self) -> Seq<char> {
        match self {
            OkCancel::Confirm => "Ok"@,
            OkCancel::Cancel => "Cancel"@,
        }
    }

    /// The choice as it is shown.
    pub fn label(&self) -> (r: String)
        ensures
            r@ == self.label_spec(),
    {
        match self {
            OkCancel::Confirm => String::from_str("Ok"),
            OkCancel::Cancel => String::from_str("Cancel"),
        }
    }
}

/// How a choice about a workspace in the way is shown.
pub open spec fn conflict_label(choice: FileExistsOptions) -> Seq<char> {
    match choice {
        FileExistsOptions::Overwrite => "Overwrite"@,
        FileExistsOptions::Cancel => "Cancel"@,
    }
}

impl FileExistsOptions {
    /// The choice as it is shown.
    pub fn label(&self) -> (r: String)
        ensures
            r@ == conflict_label(*self),
    {
        match self {
            FileExistsOptions::Overwrite => String::from_str("Overwrite"),
            FileExistsOptions::Cancel => String::from_str("Cancel"),
        }
    }
}

/// Something that can be opened: a name to show and a path below the data root.
#[derive(Clone, Debug, PartialEq, Eq)]
pub enum OpenOption {
    /// The student's report.
    PDF(String, String),
    /// The scaffold of an exercise with the student's code in it.
    Code(String, String),
}

pub enum OpenOptionView {
    PDF(Seq<char>, Seq<char>),
    Code(Seq<char>, Seq<char>),
}

impl View for OpenOption {
    type V = OpenOptionView;

    open spec fn view(&self) -> OpenOptionView {
        match *self {
            OpenOption::PDF(name, path) => OpenOptionView::PDF(name@, path@),
            OpenOption::Code(name, path) => OpenOptionView::Code(name@, path@),
        }
    }
}

/// How an option is shown: a report by its name, code by its name and the
/// word `code`.
pub open spec fn option_label(option: OpenOptionView) -> Seq<char> {
    match option {
        OpenOptionView::PDF(name, _) => name,
        OpenOptionView::Code(name, _) => name + " code"@,
    }
}

impl OpenOption {
    /// The option as it is shown.
    pub fn label(&self) -> (r: String)
        ensures
            r@ == option_label(self@),
    {
        match self {
            OpenOption::PDF(name, _) => name.clone(),
            OpenOption::Code(name, _) => name.clone().concat(" code"),
        }
    }
}

/// The views of a list of options, one for one.
pub open spec fn option_views(options: Seq<OpenOption>) -> Seq<OpenOptionView> {
    Seq::new(options.len(), |i: int| options[i]@)
}

/// The option that opens the code of an exercise: its scaffold in the
/// workspace.
pub open spec fn code_option(workspace: Seq<char>, exercise: Seq<char>) -> OpenOptionView {
    OpenOptionView::Code(exercise, workspace + "/"@ + exercise)
}

/// The option that opens the report.
pub open spec fn report_option(workspace: Seq<char>, report: Seq<char>) -> OpenOptionView {
    OpenOptionView::PDF("Student PDF"@, workspace + "/"@ + report)
}

/// What a staged workspace offers to open: the report first, if one was
/// copied, then the code of each populated exercise, in the order in which
/// they were handled.
pub open spec fn open_options_spec(w: WorkspaceView) -> Seq<OpenOptionView> {
    let codes = Seq::new(w.populated.len(), |i: int| code_option(w.path, w.populated[i]));
    match w.report {
        Some(report) => seq![report_option(w.path, report)] + codes,
        None => codes,
    }
}

/// What a staged workspace offers to open.
pub fn open_options(workspace: &Workspace) -> (r: Vec<OpenOption>)
    ensures
        option_views(r@) == open_options_spec(workspace@),
{
    let mut options: Vec<OpenOption> = Vec::new();
    match &workspace.report {
        Some(report) => {
            let path = workspace.path.clone().concat("/").concat(report.as_str());
            options.push(OpenOption::PDF(String::from_str("Student PDF"), path));
        },
        None => {},
    }
    let ghost head = option_views(options@);
    let ghost w = workspace@;
    let ghost codes = Seq::new(w.populated.len(), |i: int| code_option(w.path, w.populated[i]));
    assert(head + codes =~= open_options_spec(w));
    assert(option_views(options@) =~= head + codes.take(0));
    let mut i: usize = 0;
    while i < workspace.populated.len()
        invariant
            w == workspace@,
            codes == Seq::new(w.populated.len(), |i: int| code_option(w.path, w.populated[i])),
            i <= workspace.populated@.len(),
            option_views(options@) == head + codes.take(i as int),
        decreases workspace.populated@.len() - i,
    {
        let exercise: String = workspace.populated[i].clone();
        let path = workspace.path.clone().concat("/").concat(exercise.as_str());
        let ghost before = option_views(options@);
        options.push(OpenOption::Code(exercise, path));
        assert(views(workspace.populated@)[i as int] == workspace.populated@[i as int]@);
        assert(option_views(options@) =~= before.push(code_option(w.path, w.populated[i as int])));
        i += 1;
        assert(head + codes.take(i as int) =~= (head + codes.take(i - 1)).push(
            codes[i - 1],
        ));
    }
    assert(codes.take(workspace.populated@.len() as int) =~= codes);
    options
}

} // verus!
