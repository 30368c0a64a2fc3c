use mkdesktop::writer::{
    is_affirmative, writer_start, writer_step, AbortReason, WriterAction, WriterEvent, WriterState,
};

#[test]
fn affirmative_answers() {
    assert!(is_affirmative("y"));
    assert!(is_affirmative("Y"));
    assert!(is_affirmative("y\n"));
    assert!(is_affirmative("  Y \t\n"));
}

#[test]
fn declining_answers() {
    assert!(!is_affirmative(""));
    assert!(!is_affirmative("\n"));
    assert!(!is_affirmative("n"));
    assert!(!is_affirmative("yes"));
    assert!(!is_affirmative("yy"));
    assert!(!is_affirmative("oui"));
    assert!(!is_affirmative("y n"));
}

#[test]
fn the_run_begins_with_a_create_new_attempt() {
    assert_eq!(
        writer_start(),
        (WriterState::Creating, WriterAction::AttemptCreateNew)
    );
}

#[test]
fn a_fresh_file_is_written_at_once() {
    let (s, a) = writer_step(&WriterState::Creating, &WriterEvent::CreatedNew);
    assert_eq!(s, WriterState::Writing);
    assert_eq!(a, WriterAction::WriteContents);
    let (s, a) = writer_step(&s, &WriterEvent::ContentsWritten);
    assert_eq!(s, WriterState::Done);
    assert_eq!(a, WriterAction::ReportSuccess);
}

#[test]
fn an_existing_file_prompts_the_operator() {
    let (s, a) = writer_step(&WriterState::Creating, &WriterEvent::FileExists);
    assert_eq!(s, WriterState::Prompting);
    assert_eq!(a, WriterAction::PromptOperator);
}

#[test]
fn permission_denied_aborts_without_a_prompt() {
    let (s, a) = writer_step(&WriterState::Creating, &WriterEvent::NoPermission);
    assert_eq!(s, WriterState::Aborted(AbortReason::PermissionDenied));
    assert_eq!(
        a,
        WriterAction::ReportAborted(AbortReason::PermissionDenied)
    );
}

#[test]
fn declining_the_overwrite_aborts_without_touching_the_file() {
    let (s, a) = writer_step(
        &WriterState::Prompting,
        &WriterEvent::AnswerRead("n\n".to_string()),
    );
    assert_eq!(s, WriterState::Aborted(AbortReason::Declined));
    assert_eq!(a, WriterAction::ReportAborted(AbortReason::Declined));
    let (s, a) = writer_step(
        &WriterState::Prompting,
        &WriterEvent::AnswerRead(String::new()),
    );
    assert_eq!(s, WriterState::Aborted(AbortReason::Declined));
    assert_eq!(a, WriterAction::ReportAborted(AbortReason::Declined));
}

#[test]
fn agreeing_to_the_overwrite_truncates_then_writes() {
    let (s, a) = writer_step(
        &WriterState::Prompting,
        &WriterEvent::AnswerRead("y\n".to_string()),
    );
    assert_eq!(s, WriterState::Overwriting);
    assert_eq!(a, WriterAction::OpenTruncating);
    let (s, a) = writer_step(&s, &WriterEvent::TruncateOpened);
    assert_eq!(s, WriterState::Writing);
    assert_eq!(a, WriterAction::WriteContents);
    let (s, a) = writer_step(&s, &WriterEvent::ContentsWritten);
    assert_eq!(s, WriterState::Done);
    assert_eq!(a, WriterAction::ReportSuccess);
}

#[test]
fn an_uppercase_yes_also_overwrites() {
    let (s, a) = writer_step(
        &WriterState::Prompting,
        &WriterEvent::AnswerRead(" Y \n".to_string()),
    );
    assert_eq!(s, WriterState::Overwriting);
    assert_eq!(a, WriterAction::OpenTruncating);
}

#[test]
fn stray_io_failures_are_fatal() {
    let (s, a) = writer_step(&WriterState::Prompting, &WriterEvent::Failed);
    assert_eq!(s, WriterState::Aborted(AbortReason::IoFailure));
    assert_eq!(a, WriterAction::ReportAborted(AbortReason::IoFailure));
    let (s, a) = writer_step(&WriterState::Writing, &WriterEvent::Failed);
    assert_eq!(s, WriterState::Aborted(AbortReason::IoFailure));
    assert_eq!(a, WriterAction::ReportAborted(AbortReason::IoFailure));
    let (s, _) = writer_step(&WriterState::Creating, &WriterEvent::TruncateOpened);
    assert_eq!(s, WriterState::Aborted(AbortReason::IoFailure));
}
