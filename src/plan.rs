//! Decides what one run does once the arguments are read and the file system
//! has been asked whether the folder and the build file exist.

use vstd::prelude::*;
use crate::args::{
    BuildRequest, CommandView, RequestView, UsageError, asks_help, first_framework, first_port_flag,
    interpret, is_port_flag,
};
use crate::document::{build_document, decimal, document, joined, render};
use crate::output::{FileOp, FileOpView, emit_ops, op_views};
use crate::profile::{framework_of, profile_row, views};

verus! {

/// Why a run fails.
#[derive(Clone, Copy, Debug, PartialEq, Eq, Structural)]
pub enum RunError {
    /// The arguments cannot be acted on.
    Usage(UsageError),
    /// The folder to copy does not exist.
    DirectoryNotFound,
}

impl RunError {
    /// The process exit code for this failure.
    pub fn exit_code(self) -> (r: i32)
        ensures
            r == 1,
    {
        1
    }
}

/// What a run does after the checks.
#[derive(Debug)]
pub enum Action {
    /// Fail without touching any file.
    Fail(RunError),
    /// Perform these file steps in order.
    Emit(Vec<FileOp>),
}

/// The lines of the build file that a request asks for.
pub open spec fn request_document(r: RequestView) -> Seq<Seq<char>> {
    document(profile_row(r.framework), r.directory, r.port_override)
}

/// The text of the build file that a request asks for.
pub open spec fn request_text(r: RequestView) -> Seq<char> {
    joined(request_document(r))
}

impl BuildRequest {
    /// The lines of the build file for this request.
    pub fn document(&self) -> (r: Vec<String>)
        ensures
            views(r@) == request_document(self@),
    {
        let profile = self.framework.profile();
        build_document(&profile, self.directory.as_str(), &self.port_override)
    }

    /// The text of the build file for this request, each line ended by a newline.
    pub fn text(&self) -> (r: String)
        ensures
            r@ == request_text(self@),
    {
        render(&self.document())
    }
}

/// Decides the steps of a run: nothing but a failure when the folder is
/// missing; otherwise the steps that write the build file, moving an existing
/// one to the backup first.
pub fn plan(request: &BuildRequest, directory_exists: bool, output_exists: bool) -> (r: Action)
    ensures
        !directory_exists ==> r == Action::Fail(RunError::DirectoryNotFound),
        directory_exists ==> match r {
            Action::Emit(ops) => {
                &&& output_exists ==> op_views(ops@) == seq![
                    FileOpView::MoveToBackup,
                    FileOpView::Write(request_text(request@)),
                ]
                &&& !output_exists ==> op_views(ops@) == seq![FileOpView::Write(request_text(request@))]
            },
            Action::Fail(_) => false,
        },
{
    if !directory_exists {
        Action::Fail(RunError::DirectoryNotFound)
    } else {
        Action::Emit(emit_ops(output_exists, request.text()))
    }
}

/// The expose line of a build file: the last line but one.
pub open spec fn expose_of(lines: Seq<Seq<char>>) -> Seq<char> {
    lines[lines.len() - 2]
}

/// With no port override, the build file of every supported keyword and every
/// folder exposes the profile's default port, which is 3000 for all of them.
pub proof fn lemma_default_port_exposed(keyword: Seq<char>, directory: Seq<char>)
    requires
        framework_of(keyword) is Some,
    ensures
        expose_of(document(profile_row(framework_of(keyword)->0), directory, None))
            == "EXPOSE "@ + decimal(profile_row(framework_of(keyword)->0).default_port as nat),
        expose_of(document(profile_row(framework_of(keyword)->0), directory, None)) == "EXPOSE 3000"@,
{
    reveal_with_fuel(decimal, 5);
    reveal_strlit("EXPOSE 3000");
    reveal_strlit("EXPOSE ");
    let doc = document(profile_row(framework_of(keyword)->0), directory, None);
    assert(decimal(3000) =~= seq!['3', '0', '0', '0']);
    assert(expose_of(doc) =~= "EXPOSE 3000"@);
}

proof fn lemma_first_port_flag(args: Seq<Seq<char>>, i: int, j: int)
    requires
        0 <= j <= i < args.len(),
        is_port_flag(args[i]),
        forall|m: int| 0 <= m < i ==> !is_port_flag(#[trigger] args[m]),
    ensures
        first_port_flag(args, j) == Some(i),
    decreases i - j,
{
    if j < i {
        lemma_first_port_flag(args, i, j + 1);
    }
}

/// When a port flag is followed by a value, whatever the value holds (digits
/// or not), the request carries it verbatim and the build file exposes it.
pub proof fn lemma_port_override_verbatim(args: Seq<Seq<char>>, i: int)
    requires
        !asks_help(args),
        0 <= i,
        i + 1 < args.len(),
        is_port_flag(args[i]),
        forall|m: int| 0 <= m < i ==> !is_port_flag(#[trigger] args[m]),
        first_framework(args, 1) is Some,
    ensures
        interpret(args) matches Ok(CommandView::Generate(r)) && r.port_override == Some(args[i + 1])
            && expose_of(request_document(r)) == "EXPOSE "@ + args[i + 1],
{
    lemma_first_port_flag(args, i, 0);
}

} // verus!
