//! How the build file is written: a file already there is first moved to the
//! backup name, replacing any earlier backup, so one generation is kept.

use vstd::prelude::*;

verus! {

/// A step on the file system, performed by the caller in order.
#[derive(Debug)]
pub enum FileOp {
    /// Rename the build file to the backup name, replacing the backup.
    MoveToBackup,
    /// Create the build file with this text.
    Write(String),
}

/// A step, as plain values.
pub enum FileOpView {
    MoveToBackup,
    Write(Seq<char>),
}

impl View for FileOp {
    type V = FileOpView;

    open spec fn view(&self) -> FileOpView {
        match self {
            FileOp::MoveToBackup => FileOpView::MoveToBackup,
            FileOp::Write(t) => FileOpView::Write(t@),
        }
    }
}

/// The views of a sequence of steps.
pub open spec fn op_views(ops: Seq<FileOp>) -> Seq<FileOpView> {
    ops.map_values(|o: FileOp| o@)
}

/// The build file and its backup: the text of each, where it exists.
pub struct FilesView {
    pub current: Option<Seq<char>>,
    pub backup: Option<Seq<char>>,
}

/// The effect of one step.
pub open spec fn apply_op(s: FilesView, op: FileOpView) -> FilesView {
    match op {
        FileOpView::MoveToBackup => match s.current {
            Some(c) => FilesView { current: None, backup: Some(c) },
            None => s,
        },
        FileOpView::Write(t) => FilesView { current: Some(t), backup: s.backup },
    }
}

/// The effect of the steps, in order.
pub open spec fn apply_all(s: FilesView, ops: Seq<FileOpView>) -> FilesView
    decreases ops.len(),
{
    if ops.len() == 0 {
        s
    } else {
        apply_op(apply_all(s, ops.drop_last()), ops.last())
    }
}

/// The files after one emit of `text`: the text is the build file, and the
/// previous build file, if there was one, is the backup.
pub open spec fn emitted(s: FilesView, text: Seq<char>) -> FilesView {
    FilesView {
        current: Some(text),
        backup: match s.current {
            Some(c) => Some(c),
            None => s.backup,
        },
    }
}

/// The steps that write `text` as the build file, given whether a build file
/// exists now.
pub fn emit_ops(output_exists: bool, text: String) -> (ops: Vec<FileOp>)
    ensures
        output_exists ==> op_views(ops@) == seq![FileOpView::MoveToBackup, FileOpView::Write(text@)],
        !output_exists ==> op_views(ops@) == seq![FileOpView::Write(text@)],
        forall|s: FilesView| (s.current is Some) == output_exists
            ==> #[trigger] apply_all(s, op_views(ops@)) == emitted(s, text@),
{
    let ghost t = text@;
    let mut ops: Vec<FileOp> = Vec::new();
    if output_exists {
        ops.push(FileOp::MoveToBackup);
    }
    ops.push(FileOp::Write(text));
    let ghost v = op_views(ops@);
    if output_exists {
        assert(v =~= seq![FileOpView::MoveToBackup, FileOpView::Write(t)]);
    } else {
        assert(v =~= seq![FileOpView::Write(t)]);
    }
    assert forall|s: FilesView| (s.current is Some) == output_exists
        implies #[trigger] apply_all(s, v) == emitted(s, t) by {
        if output_exists {
            let one = v.drop_last();
            assert(one =~= seq![FileOpView::MoveToBackup]);
            assert(one.drop_last() =~= Seq::<FileOpView>::empty());
            assert(apply_all(s, one.drop_last()) == s);
            assert(apply_all(s, one) == apply_op(s, FileOpView::MoveToBackup));
        } else {
            assert(v.drop_last() =~= Seq::<FileOpView>::empty());
            assert(apply_all(s, v.drop_last()) == s);
        }
    }
    ops
}

/// The build file and its backup held in memory.
#[derive(Debug)]
pub struct OutputFiles {
    pub current: Option<String>,
    pub backup: Option<String>,
}

impl View for OutputFiles {
    type V = FilesView;

    open spec fn view(&self) -> FilesView {
        FilesView {
            current: match self.current {
                Some(c) => Some(c@),
                None => None,
            },
            backup: match self.backup {
                Some(b) => Some(b@),
                None => None,
            },
        }
    }
}

impl OutputFiles {
    /// No build file and no backup.
    pub fn new() -> (r: OutputFiles)
        ensures
            r@ == (FilesView { current: None, backup: None }),
    {
        OutputFiles { current: None, backup: None }
    }

    /// Performs one step.
    pub fn apply(&mut self, op: &FileOp)
        ensures
            final(self)@ == apply_op(old(self)@, op@),
    {
        match op {
            FileOp::MoveToBackup => {
                if self.current.is_some() {
                    self.backup = self.current.take();
                }
            },
            FileOp::Write(t) => {
                self.current = Some(t.clone());
            },
        }
    }

    /// Writes `text` as the build file, moving the previous one to the backup.
    pub fn emit(&mut self, text: String)
        ensures
            final(self)@ == emitted(old(self)@, text@),
    {
        let ghost start = self@;
        let ghost t = text@;
        let ops = emit_ops(self.current.is_some(), text);
        let ghost all = op_views(ops@);
        let mut i: usize = 0;
        while i < ops.len()
            invariant
                all == op_views(ops@),
                i <= ops@.len(),
                self@ == apply_all(start, all.subrange(0, i as int)),
            decreases ops@.len() - i,
        {
            proof {
                assert(all.subrange(0, i + 1).drop_last() =~= all.subrange(0, i as int));
            }
            self.apply(&ops[i]);
            i = i + 1;
        }
        assert(all.subrange(0, i as int) =~= all);
    }
}

/// Emitting twice leaves the second text as the build file and the first as
/// the backup; a third emit replaces the backup with the second text, so no
/// more than one earlier generation is ever kept.
pub proof fn lemma_one_generation_kept(s: FilesView, a: Seq<char>, b: Seq<char>, c: Seq<char>)
    ensures
        emitted(emitted(s, a), b) == (FilesView { current: Some(b), backup: Some(a) }),
        emitted(emitted(emitted(s, a), b), c) == (FilesView { current: Some(c), backup: Some(b) }),
{
}

} // verus!
