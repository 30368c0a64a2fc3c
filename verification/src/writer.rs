//! The overwrite-confirmation protocol of the file writer, as a state
//! machine. The surroundings perform the file operations and the one
//! interactive read, hand each outcome back as an event, and the
//! transition function decides what happens next — in particular which
//! failure consults the operator and which aborts at once.

use vstd::prelude::*;
use crate::chars::{char_is_whitespace, is_whitespace_char};

verus! {

/// `s` without its leading whitespace.
pub open spec fn drop_leading_ws(s: Seq<char>) -> Seq<char>
    decreases s.len(),
{
    if s.len() > 0 && is_whitespace_char(s[0]) {
        drop_leading_ws(s.drop_first())
    } else {
        s
    }
}

/// `s` without its trailing whitespace.
pub open spec fn drop_trailing_ws(s: Seq<char>) -> Seq<char>
    decreases s.len(),
{
    if s.len() > 0 && is_whitespace_char(s.last()) {
        drop_trailing_ws(s.drop_last())
    } else {
        s
    }
}

/// `s` without leading and trailing whitespace.
pub open spec fn trimmed(s: Seq<char>) -> Seq<char> {
    drop_trailing_ws(drop_leading_ws(s))
}

/// Whether the operator's answer means yes: exactly `y` or `Y` once the
/// surrounding whitespace is removed. Anything else declines.
pub open spec fn is_affirmative_answer(s: Seq<char>) -> bool {
    trimmed(s) == seq!['y'] || trimmed(s) == seq!['Y']
}

proof fn lemma_drop_leading_ws_at(s: Seq<char>, i: int)
    requires
        0 <= i <= s.len(),
        forall|k: int| 0 <= k < i ==> is_whitespace_char(#[trigger] s[k]),
        i < s.len() ==> !is_whitespace_char(s[i]),
    ensures
        drop_leading_ws(s) == s.skip(i),
    decreases i,
{
    if i == 0 {
        assert(s.skip(0) =~= s);
    } else {
        assert(is_whitespace_char(s[0]));
        lemma_drop_leading_ws_at(s.drop_first(), i - 1);
        assert(s.drop_first().skip(i - 1) =~= s.skip(i));
    }
}

proof fn lemma_drop_trailing_ws_at(t: Seq<char>, m: int)
    requires
        0 <= m <= t.len(),
        forall|k: int| m <= k < t.len() ==> is_whitespace_char(#[trigger] t[k]),
        m > 0 ==> !is_whitespace_char(t[m - 1]),
    ensures
        drop_trailing_ws(t) == t.take(m),
    decreases t.len(),
{
    if t.len() > 0 && is_whitespace_char(t.last()) {
        assert(m < t.len());
        lemma_drop_trailing_ws_at(t.drop_last(), m);
        assert(t.drop_last().take(m) =~= t.take(m));
    } else {
        assert(m == t.len());
        assert(t.take(m) =~= t);
    }
}

/// Whether one line of operator input means yes: exactly `y` or `Y` once
/// surrounding whitespace is removed; any other answer — empty included —
/// declines.
pub fn is_affirmative(answer: &str) -> (r: bool)
    ensures
        r == is_affirmative_answer(answer@),
{
    let n = answer.unicode_len();
    let mut i: usize = 0;
    while i < n && char_is_whitespace(answer.get_char(i))
        invariant
            i <= n,
            n == answer@.len(),
            forall|k: int| 0 <= k < i ==> is_whitespace_char(#[trigger] answer@[k]),
        decreases n - i,
    {
        i = i + 1;
    }
    proof {
        lemma_drop_leading_ws_at(answer@, i as int);
    }
    if i == n {
        // all whitespace: the trimmed answer is empty
        proof {
            lemma_drop_trailing_ws_at(answer@.skip(i as int), 0);
        }
        return false;
    }
    let mut j: usize = n - 1;
    while char_is_whitespace(answer.get_char(j))
        invariant
            i <= j < n,
            n == answer@.len(),
            !is_whitespace_char(answer@[i as int]),
            forall|k: int| j < k < n ==> is_whitespace_char(#[trigger] answer@[k]),
        decreases j,
    {
        j = j - 1;
    }
    let c = answer.get_char(i);
    let r = j == i && (c == 'y' || c == 'Y');
    proof {
        let rest = answer@.skip(i as int);
        lemma_drop_trailing_ws_at(rest, j + 1 - i);
        assert(trimmed(answer@) =~= answer@.subrange(i as int, j + 1));
        if j == i {
            assert(trimmed(answer@) =~= seq![c]);
            assert(seq![c].len() == 1);
            if c == 'y' {
                assert(trimmed(answer@) =~= seq!['y']);
            } else if c == 'Y' {
                assert(trimmed(answer@) =~= seq!['Y']);
            } else {
                assert(trimmed(answer@)[0] == c);
            }
        } else {
            assert(trimmed(answer@).len() > 1);
        }
    }
    r
}

/// Why a run ends without writing the file.
#[derive(Clone, Copy, PartialEq, Eq, Structural, Debug)]
pub enum AbortReason {
    /// Creating the file was denied; no prompt is shown.
    PermissionDenied,
    /// The operator declined to overwrite the existing file.
    Declined,
    /// An unrecoverable I/O failure during create, answer read, open or
    /// write.
    IoFailure,
}

/// Where the write protocol stands.
#[derive(Clone, Copy, PartialEq, Eq, Structural, Debug)]
pub enum WriterState {
    /// About to attempt to create the file anew.
    Creating,
    /// The file already exists; waiting for the operator's answer.
    Prompting,
    /// The operator agreed; about to open the file with truncation.
    Overwriting,
    /// Holding a fresh or truncated file; about to write the contents.
    Writing,
    /// The contents were written in full and the path reported.
    Done,
    /// The run ended without writing the file completely.
    Aborted(AbortReason),
}

/// What the surroundings report back to the protocol.
#[derive(Clone, Debug)]
pub enum WriterEvent {
    /// The create-new attempt succeeded; the file did not exist.
    CreatedNew,
    /// The create-new attempt failed: the file already exists.
    FileExists,
    /// The create-new attempt failed: permission denied.
    NoPermission,
    /// One line was read as the operator's answer.
    AnswerRead(String),
    /// The truncating open of the existing file succeeded.
    TruncateOpened,
    /// The full contents were written.
    ContentsWritten,
    /// Any other I/O failure, a failed answer read included.
    Failed,
}

/// What the protocol asks the surroundings to do next.
#[derive(Clone, Copy, PartialEq, Eq, Structural, Debug)]
pub enum WriterAction {
    /// Try to create the destination file anew, never truncating.
    AttemptCreateNew,
    /// Ask the overwrite question and read one line of input.
    PromptOperator,
    /// Open the existing destination file for writing, truncating it.
    OpenTruncating,
    /// Write the rendered entry text to the open file in one pass.
    WriteContents,
    /// Report the destination path; the run succeeded.
    ReportSuccess,
    /// Report the failure; the run exits non-zero.
    ReportAborted(AbortReason),
}

/// The transition relation of the write protocol. Every pair that the
/// protocol cannot reach counts as an unrecoverable failure.
pub open spec fn writer_step_spec(s: WriterState, e: WriterEvent) -> (WriterState, WriterAction) {
    match (s, e) {
        (WriterState::Creating, WriterEvent::CreatedNew) => (
            WriterState::Writing,
            WriterAction::WriteContents,
        ),
        (WriterState::Creating, WriterEvent::FileExists) => (
            WriterState::Prompting,
            WriterAction::PromptOperator,
        ),
        (WriterState::Creating, WriterEvent::NoPermission) => (
            WriterState::Aborted(AbortReason::PermissionDenied),
            WriterAction::ReportAborted(AbortReason::PermissionDenied),
        ),
        (WriterState::Prompting, WriterEvent::AnswerRead(a)) => if is_affirmative_answer(a@) {
            (WriterState::Overwriting, WriterAction::OpenTruncating)
        } else {
            (
                WriterState::Aborted(AbortReason::Declined),
                WriterAction::ReportAborted(AbortReason::Declined),
            )
        },
        (WriterState::Overwriting, WriterEvent::TruncateOpened) => (
            WriterState::Writing,
            WriterAction::WriteContents,
        ),
        (WriterState::Writing, WriterEvent::ContentsWritten) => (
            WriterState::Done,
            WriterAction::ReportSuccess,
        ),
        _ => (
            WriterState::Aborted(AbortReason::IoFailure),
            WriterAction::ReportAborted(AbortReason::IoFailure),
        ),
    }
}

/// The protocol begins by attempting an atomic create-new: no implicit
/// truncation of an existing file.
pub fn writer_start() -> (r: (WriterState, WriterAction))
    ensures
        r == (WriterState::Creating, WriterAction::AttemptCreateNew),
{
    (WriterState::Creating, WriterAction::AttemptCreateNew)
}

/// One step of the write protocol: from the current state and the
/// surroundings' report, the next state and the next thing to do.
pub fn writer_step(s: &WriterState, e: &WriterEvent) -> (r: (WriterState, WriterAction))
    ensures
        r == writer_step_spec(*s, *e),
{
    match (s, e) {
        (WriterState::Creating, WriterEvent::CreatedNew) => (
            WriterState::Writing,
            WriterAction::WriteContents,
        ),
        (WriterState::Creating, WriterEvent::FileExists) => (
            WriterState::Prompting,
            WriterAction::PromptOperator,
        ),
        (WriterState::Creating, WriterEvent::NoPermission) => (
            WriterState::Aborted(AbortReason::PermissionDenied),
            WriterAction::ReportAborted(AbortReason::PermissionDenied),
        ),
        (WriterState::Prompting, WriterEvent::AnswerRead(a)) => if is_affirmative(a.as_str()) {
            (WriterState::Overwriting, WriterAction::OpenTruncating)
        } else {
            (
                WriterState::Aborted(AbortReason::Declined),
                WriterAction::ReportAborted(AbortReason::Declined),
            )
        },
        (WriterState::Overwriting, WriterEvent::TruncateOpened) => (
            WriterState::Writing,
            WriterAction::WriteContents,
        ),
        (WriterState::Writing, WriterEvent::ContentsWritten) => (
            WriterState::Done,
            WriterAction::ReportSuccess,
        ),
        _ => (
            WriterState::Aborted(AbortReason::IoFailure),
            WriterAction::ReportAborted(AbortReason::IoFailure),
        ),
    }
}

/// The protocol asks for a truncating open only from the prompt, and only
/// after the operator answered the overwrite question with yes.
pub proof fn lemma_truncate_needs_consent(s: WriterState, e: WriterEvent)
    ensures
        writer_step_spec(s, e).1 == WriterAction::OpenTruncating ==> (s == WriterState::Prompting
            && (e matches WriterEvent::AnswerRead(a) && is_affirmative_answer(a@))),
{
}

/// Any answer other than yes ends the run at once: the protocol reports
/// the declined overwrite and asks for no file operation, so the prior
/// contents stay untouched.
pub proof fn lemma_decline_aborts(a: String)
    requires
        !is_affirmative_answer(a@),
    ensures
        writer_step_spec(WriterState::Prompting, WriterEvent::AnswerRead(a)) == (
            WriterState::Aborted(AbortReason::Declined),
            WriterAction::ReportAborted(AbortReason::Declined),
        ),
{
}

/// A yes answer replaces the file: the protocol moves to the truncating
/// open, and from its success straight to writing the full new contents.
pub proof fn lemma_consent_overwrites(a: String)
    requires
        is_affirmative_answer(a@),
    ensures
        writer_step_spec(WriterState::Prompting, WriterEvent::AnswerRead(a)) == (
            WriterState::Overwriting,
            WriterAction::OpenTruncating,
        ),
        writer_step_spec(WriterState::Overwriting, WriterEvent::TruncateOpened) == (
            WriterState::Writing,
            WriterAction::WriteContents,
        ),
{
}

/// Permission denied aborts without consulting the operator: the
/// transition reports the abort directly and never asks for the prompt.
pub proof fn lemma_permission_denied_never_prompts()
    ensures
        writer_step_spec(WriterState::Creating, WriterEvent::NoPermission) == (
            WriterState::Aborted(AbortReason::PermissionDenied),
            WriterAction::ReportAborted(AbortReason::PermissionDenied),
        ),
        writer_step_spec(WriterState::Creating, WriterEvent::NoPermission).1
            != WriterAction::PromptOperator,
{
}

/// Contents are written only into a file that was just created anew or
/// just truncated with the operator's consent: no other step asks for a
/// write, so an existing file is never changed behind the prompt.
pub proof fn lemma_write_needs_fresh_or_consented_file(s: WriterState, e: WriterEvent)
    ensures
        writer_step_spec(s, e).1 == WriterAction::WriteContents ==> ((s == WriterState::Creating
            && e matches WriterEvent::CreatedNew) || (s == WriterState::Overwriting
            && e matches WriterEvent::TruncateOpened)),
{
}

/// An ended run stays ended: from an aborted state no event leads back to
/// a file operation or a prompt.
pub proof fn lemma_abort_is_final(r: AbortReason, e: WriterEvent)
    ensures
        writer_step_spec(WriterState::Aborted(r), e).0 matches WriterState::Aborted(_),
        writer_step_spec(WriterState::Aborted(r), e).1 != WriterAction::WriteContents,
        writer_step_spec(WriterState::Aborted(r), e).1 != WriterAction::OpenTruncating,
        writer_step_spec(WriterState::Aborted(r), e).1 != WriterAction::PromptOperator,
{
}

} // verus!
