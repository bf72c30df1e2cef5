use config_store::command::command_id;
use config_store::command::judge_invocation;
use config_store::command::Invocation;
use config_store::command::InvocationReport;
use config_store::command::SentCommand;
use config_store::CommandError;

fn account(output: Option<&str>, error: Option<&str>, status: Option<&str>) -> Invocation {
    Invocation {
        standard_output: output.map(str::to_string),
        standard_error: error.map(str::to_string),
        status: status.map(str::to_string),
    }
}

#[test]
fn a_sent_command_is_known_by_its_identifier() {
    let sent = SentCommand { command: Some(Some("cmd-1".to_string())) };
    assert_eq!(command_id(sent), Ok("cmd-1".to_string()));
}

#[test]
fn an_answer_without_a_command_or_without_its_identifier_fails() {
    assert_eq!(command_id(SentCommand { command: None }), Err(CommandError::MissingCommand));
    assert_eq!(
        command_id(SentCommand { command: Some(None) }),
        Err(CommandError::MissingCommandId)
    );
}

#[test]
fn a_command_that_was_waited_for_and_has_a_status_counts_as_run() {
    assert_eq!(
        judge_invocation(account(Some("out"), Some("err"), Some("Success")), Ok(())),
        InvocationReport {
            standard_output: "out".to_string(),
            standard_error: "err".to_string(),
            status: Some("Success".to_string()),
            failure: None,
        }
    );
}

#[test]
fn missing_output_is_logged_as_empty() {
    let report = judge_invocation(account(None, None, Some("Success")), Ok(()));
    assert_eq!(report.standard_output, "");
    assert_eq!(report.standard_error, "");
    assert_eq!(report.failure, None);
}

#[test]
fn an_account_without_a_status_fails_the_command() {
    let report = judge_invocation(account(Some("out"), None, None), Ok(()));
    assert_eq!(report.standard_output, "out");
    assert_eq!(report.status, None);
    assert_eq!(report.failure, Some(CommandError::MissingStatus));
}

#[test]
fn a_failed_wait_fails_the_command_after_its_status_is_known() {
    let report =
        judge_invocation(account(None, Some("boom"), Some("Failed")), Err("timed out".to_string()));
    assert_eq!(report.standard_error, "boom");
    assert_eq!(report.status, Some("Failed".to_string()));
    assert_eq!(report.failure, Some(CommandError::WaitFailed { detail: "timed out".to_string() }));
}

#[test]
fn a_missing_status_is_reported_before_a_failed_wait() {
    let report = judge_invocation(account(None, None, None), Err("timed out".to_string()));
    assert_eq!(report.failure, Some(CommandError::MissingStatus));
}

#[test]
fn command_errors_in_words() {
    assert_eq!(CommandError::MissingCommand.message(), "missing command in response");
    assert_eq!(CommandError::MissingCommandId.message(), "missing command id in response");
    assert_eq!(CommandError::MissingStatus.message(), "missing status in response");
    assert_eq!(
        CommandError::WaitFailed { detail: "timed out".to_string() }.message(),
        "error waiting: timed out"
    );
}
