use cp_cli::error::PipelineError;
use cp_cli::runner::actual_output;
use cp_cli::runner::program_path;
use cp_cli::runner::ExecutionOutcome;
use cp_cli::runner::RunOutcome;

#[test]
fn program_is_looked_for_in_the_directory() {
    assert_eq!(program_path("/home/user/contest", "A"), "/home/user/contest/A");
    assert_eq!(program_path("", "A"), "/A");
    assert_eq!(program_path("/", "B"), "//B");
    assert_eq!(program_path("/tmp", ""), "/tmp/");
}

#[test]
fn spawn_error_is_a_failed_spawn() {
    let outcome = RunOutcome::SpawnError("No such file or directory (os error 2)".to_string());
    assert_eq!(
        actual_output(outcome),
        Err(PipelineError::SpawnFailed("No such file or directory (os error 2)".to_string()))
    );
}

#[test]
fn captured_output_is_returned_in_full() {
    let done = ExecutionOutcome { exit_code: Some(0), stdout: b"7 3\n".to_vec() };
    assert_eq!(actual_output(RunOutcome::Completed(done)), Ok("7 3\n".to_string()));
    let silent = ExecutionOutcome { exit_code: Some(0), stdout: Vec::new() };
    assert_eq!(actual_output(RunOutcome::Completed(silent)), Ok(String::new()));
}

#[test]
fn exit_code_does_not_decide() {
    let failed = ExecutionOutcome { exit_code: Some(3), stdout: b"partial".to_vec() };
    assert_eq!(actual_output(RunOutcome::Completed(failed)), Ok("partial".to_string()));
    let killed = ExecutionOutcome { exit_code: None, stdout: b"cut".to_vec() };
    assert_eq!(actual_output(RunOutcome::Completed(killed)), Ok("cut".to_string()));
}

#[test]
fn invalid_encoding_is_replaced() {
    let done = ExecutionOutcome { exit_code: Some(0), stdout: vec![b'4', 0xff, b'2', 0xc3] };
    assert_eq!(
        actual_output(RunOutcome::Completed(done)),
        Ok("4\u{fffd}2\u{fffd}".to_string())
    );
}

#[test]
fn valid_encoding_is_decoded() {
    let done = ExecutionOutcome { exit_code: Some(0), stdout: "é ü 漢\n".as_bytes().to_vec() };
    assert_eq!(actual_output(RunOutcome::Completed(done)), Ok("é ü 漢\n".to_string()));
}
