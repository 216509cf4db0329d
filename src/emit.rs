use vstd::prelude::*;

use crate::alias::AliasFile;

verus! {

/// What the emitter asks the caller to do next.
#[derive(Clone, Copy, Debug, PartialEq, Eq, Structural)]
pub enum EmitAction {
    /// Create (or truncate) file `file` for writing.
    Open { file: usize },
    /// Append line `line` of file `file`, with its line end.
    Write { file: usize, line: usize },
    /// Nothing is left to do.
    Finish,
}

/// A failure to report on the error stream.
#[derive(Clone, Copy, Debug, PartialEq, Eq, Structural)]
pub enum EmitFailure {
    /// File `file` could not be opened; it is skipped.
    OpenFailed { file: usize },
    /// A line of file `file` could not be written; the rest of it is skipped.
    WriteFailed { file: usize },
}

/// The outcome of one step: a failure to report, if any, and the next action.
#[derive(Clone, Copy, Debug, PartialEq, Eq, Structural)]
pub struct EmitStep {
    pub report: Option<EmitFailure>,
    pub next: EmitAction,
}

/// Opening file `f`, or finishing when there is none.
pub open spec fn next_file(files: Seq<AliasFile>, f: nat) -> EmitAction {
    if f < files.len() {
        EmitAction::Open { file: f as usize }
    } else {
        EmitAction::Finish
    }
}

/// Writing line `l` of file `f`, or moving on to the next file when `f` has
/// no such line.
pub open spec fn next_in_file(files: Seq<AliasFile>, f: nat, l: nat) -> EmitAction {
    if f < files.len() && l < files[f as int].lines@.len() {
        EmitAction::Write { file: f as usize, line: l as usize }
    } else {
        next_file(files, f + 1)
    }
}

/// The step after `last` was carried out, `ok` telling whether it succeeded.
pub open spec fn step_of(files: Seq<AliasFile>, last: EmitAction, ok: bool) -> EmitStep {
    match last {
        EmitAction::Open { file } => if ok {
            EmitStep { report: None, next: next_in_file(files, file as nat, 0) }
        } else {
            EmitStep {
                report: Some(EmitFailure::OpenFailed { file }),
                next: next_file(files, file as nat + 1),
            }
        },
        EmitAction::Write { file, line } => if ok {
            EmitStep { report: None, next: next_in_file(files, file as nat, line as nat + 1) }
        } else {
            EmitStep {
                report: Some(EmitFailure::WriteFailed { file }),
                next: next_file(files, file as nat + 1),
            }
        },
        EmitAction::Finish => EmitStep { report: None, next: EmitAction::Finish },
    }
}

fn file_after(files: &Vec<AliasFile>, f: usize) -> (r: EmitAction)
    ensures
        r == next_file(files@, f as nat + 1),
{
    if f < files.len() && f + 1 < files.len() {
        EmitAction::Open { file: f + 1 }
    } else {
        EmitAction::Finish
    }
}

fn line_after(files: &Vec<AliasFile>, f: usize, l: usize) -> (r: EmitAction)
    ensures
        r == next_in_file(files@, f as nat, l as nat + 1),
{
    if f < files.len() && l < files[f].lines.len() {
        if l + 1 < files[f].lines.len() {
            EmitAction::Write { file: f, line: l + 1 }
        } else {
            file_after(files, f)
        }
    } else {
        file_after(files, f)
    }
}

/// The first action of a run over `files`: opening the first one, if any.
pub fn emit_start(files: &Vec<AliasFile>) -> (r: EmitAction)
    ensures
        r == next_file(files@, 0),
{
    if files.len() > 0 {
        EmitAction::Open { file: 0 }
    } else {
        EmitAction::Finish
    }
}

/// The step after `last` was carried out. An opened file is written line by
/// line in order, then the next file is opened. A failed open or write is
/// reported once and abandons that file; the next file is still attempted.
pub fn emit_step(files: &Vec<AliasFile>, last: EmitAction, ok: bool) -> (r: EmitStep)
    ensures
        r == step_of(files@, last, ok),
{
    match last {
        EmitAction::Open { file } => {
            if ok {
                if file < files.len() && 0 < files[file].lines.len() {
                    EmitStep { report: None, next: EmitAction::Write { file, line: 0 } }
                } else {
                    EmitStep { report: None, next: file_after(files, file) }
                }
            } else {
                EmitStep { report: Some(EmitFailure::OpenFailed { file }), next: file_after(files, file) }
            }
        },
        EmitAction::Write { file, line } => {
            if ok {
                EmitStep { report: None, next: line_after(files, file, line) }
            } else {
                EmitStep { report: Some(EmitFailure::WriteFailed { file }), next: file_after(files, file) }
            }
        },
        EmitAction::Finish => EmitStep { report: None, next: EmitAction::Finish },
    }
}

/// A failed open or write is reported, and nothing more is written to that
/// file: the run moves on to a later file or finishes.
pub proof fn lemma_failure_abandons_file(files: Seq<AliasFile>, last: EmitAction)
    requires
        files.len() <= usize::MAX,
        !(last is Finish),
    ensures
        step_of(files, last, false).report is Some,
        match step_of(files, last, false).next {
            EmitAction::Open { file } => match last {
                EmitAction::Open { file: f } => file == f + 1,
                EmitAction::Write { file: f, .. } => file == f + 1,
                EmitAction::Finish => false,
            },
            EmitAction::Write { .. } => false,
            EmitAction::Finish => true,
        },
{
}

/// The action reached from `a` after `n` steps that all succeed.
pub open spec fn after_successes(files: Seq<AliasFile>, a: EmitAction, n: nat) -> EmitAction
    decreases n,
{
    if n == 0 {
        a
    } else {
        after_successes(files, step_of(files, a, true).next, (n - 1) as nat)
    }
}

/// Opening file `f`, then writing each of its lines in order.
pub open spec fn file_trace(files: Seq<AliasFile>, f: nat) -> Seq<EmitAction> {
    seq![EmitAction::Open { file: f as usize }] + Seq::new(
        files[f as int].lines@.len(),
        |l: int| EmitAction::Write { file: f as usize, line: l as usize },
    )
}

/// The actions of files `f` onwards, when nothing fails.
pub open spec fn trace_from(files: Seq<AliasFile>, f: nat) -> Seq<EmitAction>
    decreases files.len() - f,
{
    if f < files.len() {
        file_trace(files, f) + trace_from(files, f + 1)
    } else {
        Seq::empty()
    }
}

pub open spec fn fits_usize(files: Seq<AliasFile>) -> bool {
    &&& files.len() <= usize::MAX
    &&& forall|i: int| 0 <= i < files.len() ==> #[trigger] files[i].lines@.len() <= usize::MAX
}

proof fn lemma_after_successes_split(files: Seq<AliasFile>, a: EmitAction, m: nat, n: nat)
    ensures
        after_successes(files, a, m + n) == after_successes(files, after_successes(files, a, m), n),
    decreases m,
{
    if m > 0 {
        lemma_after_successes_split(files, step_of(files, a, true).next, (m - 1) as nat, n);
        assert((m + n - 1) as nat == (m - 1) as nat + n);
    }
}

proof fn lemma_lines_of_file(files: Seq<AliasFile>, f: nat, l: nat)
    requires
        fits_usize(files),
        f < files.len(),
        l <= files[f as int].lines@.len(),
    ensures
        forall|j: nat|
            j < files[f as int].lines@.len() - l ==> #[trigger] after_successes(
                files,
                next_in_file(files, f, l),
                j,
            ) == (EmitAction::Write { file: f as usize, line: (l + j) as usize }),
        after_successes(files, next_in_file(files, f, l), (files[f as int].lines@.len() - l) as nat)
            == next_file(files, f + 1),
    decreases files[f as int].lines@.len() - l,
{
    let n = files[f as int].lines@.len();
    assert(files[f as int].lines@.len() <= usize::MAX);
    if l < n {
        lemma_lines_of_file(files, f, l + 1);
        assert(step_of(files, next_in_file(files, f, l), true).next == next_in_file(files, f, l + 1));
        assert forall|j: nat| j < n - l implies #[trigger] after_successes(
            files,
            next_in_file(files, f, l),
            j,
        ) == (EmitAction::Write { file: f as usize, line: (l + j) as usize }) by {
            if j > 0 {
                assert(after_successes(files, next_in_file(files, f, l + 1), (j - 1) as nat)
                    == (EmitAction::Write { file: f as usize, line: (l + 1 + (j - 1)) as usize }));
            }
        }
        assert(after_successes(files, next_in_file(files, f, l + 1), (n - (l + 1)) as nat)
            == next_file(files, f + 1));
    }
}

proof fn lemma_trace_from(files: Seq<AliasFile>, f: nat)
    requires
        fits_usize(files),
        f <= files.len(),
    ensures
        forall|k: nat|
            k < trace_from(files, f).len() ==> #[trigger] after_successes(files, next_file(files, f), k)
                == trace_from(files, f)[k as int],
        after_successes(files, next_file(files, f), trace_from(files, f).len()) == EmitAction::Finish,
    decreases files.len() - f,
{
    if f < files.len() {
        lemma_trace_from(files, f + 1);
        lemma_lines_of_file(files, f, 0);
        let n = files[f as int].lines@.len();
        let ft = file_trace(files, f);
        let rest = trace_from(files, f + 1);
        let start = next_file(files, f);
        assert(trace_from(files, f) == ft + rest);
        assert(ft.len() == n + 1);
        assert(step_of(files, start, true).next == next_in_file(files, f, 0));
        assert forall|k: nat| k < trace_from(files, f).len() implies #[trigger] after_successes(
            files,
            start,
            k,
        ) == trace_from(files, f)[k as int] by {
            if k > 0 {
                let j = (k - 1) as nat;
                if j < n {
                    assert(after_successes(files, next_in_file(files, f, 0), j)
                        == (EmitAction::Write { file: f as usize, line: (0 + j) as usize }));
                } else {
                    let i = (j - n) as nat;
                    lemma_after_successes_split(files, next_in_file(files, f, 0), n, i);
                    assert(j == n + i);
                    assert(after_successes(files, next_file(files, f + 1), i) == rest[i as int]);
                }
            }
        }
        let total = trace_from(files, f).len();
        lemma_after_successes_split(files, next_in_file(files, f, 0), n, rest.len());
        assert(after_successes(files, start, total) == after_successes(
            files,
            next_in_file(files, f, 0),
            (total - 1) as nat,
        ));
        assert((total - 1) as nat == n + rest.len());
    }
}

/// A run in which every open and write succeeds opens each file in order,
/// writes each of its lines in order right after opening it, and then
/// finishes.
pub proof fn lemma_successful_run(files: Seq<AliasFile>)
    requires
        fits_usize(files),
    ensures
        forall|k: nat|
            k < trace_from(files, 0).len() ==> #[trigger] after_successes(files, next_file(files, 0), k)
                == trace_from(files, 0)[k as int],
        after_successes(files, next_file(files, 0), trace_from(files, 0).len()) == EmitAction::Finish,
{
    lemma_trace_from(files, 0);
}

} // verus!
