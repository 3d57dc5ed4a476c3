use shell::builtin_command::{BuiltinCommand, BuiltinOutcome};
use shell::command::{Command, Execution};
use shell::error::ShellError;
use shell::external_command::{ExternalCommand, ProcessRun};
use shell::output::{Emission, Output, Stream};
use shell::text::{join_dir, join_with_spaces, split_at_colons, tokenize};
use shell::{finish_run, interpret_line, LineAction};

fn strings(v: &[&str]) -> Vec<String> {
    v.iter().map(|s| s.to_string()).collect()
}

fn nothing_present(_: &str) -> bool {
    false
}

#[test]
fn builtin_names_are_recognised() {
    assert_eq!(BuiltinCommand::parse("echo"), Some(BuiltinCommand::Echo));
    assert_eq!(BuiltinCommand::parse("exit"), Some(BuiltinCommand::Exit));
    assert_eq!(BuiltinCommand::parse("ls"), None);
    assert_eq!(BuiltinCommand::parse("Echo"), None);
    assert_eq!(BuiltinCommand::parse(""), None);
}

#[test]
fn echo_joins_with_single_spaces() {
    let r = BuiltinCommand::Echo.execute(&strings(&["a", "b", "c"]));
    assert_eq!(r, BuiltinOutcome::Text("a b c".to_string()));
    let r = BuiltinCommand::Echo.execute(&strings(&["x"]));
    assert_eq!(r, BuiltinOutcome::Text("x".to_string()));
    let r = BuiltinCommand::Echo.execute(&Vec::new());
    assert_eq!(r, BuiltinOutcome::Text(String::new()));
    assert_eq!(join_with_spaces(&strings(&["a", "", "b"])), "a  b");
}

#[test]
fn exit_asks_for_status_zero_whatever_the_arguments() {
    assert_eq!(BuiltinCommand::Exit.execute(&strings(&["3"])), BuiltinOutcome::Terminate(0));
}

#[test]
fn tokenize_splits_on_whitespace() {
    assert_eq!(tokenize("  echo \t hello\u{3000}world  "), strings(&["echo", "hello", "world"]));
    assert_eq!(tokenize(""), Vec::<String>::new());
    assert_eq!(tokenize(" \t\n"), Vec::<String>::new());
    assert_eq!(tokenize("a"), strings(&["a"]));
}

#[test]
fn split_at_colons_keeps_empty_pieces() {
    assert_eq!(split_at_colons("/bin:/usr/bin"), strings(&["/bin", "/usr/bin"]));
    assert_eq!(split_at_colons("a::b:"), strings(&["a", "", "b", ""]));
    assert_eq!(split_at_colons(""), strings(&[""]));
}

#[test]
fn join_dir_follows_path_join() {
    assert_eq!(join_dir("/usr/bin", "ls"), "/usr/bin/ls");
    assert_eq!(join_dir("/usr/bin/", "ls"), "/usr/bin/ls");
    assert_eq!(join_dir("", "ls"), "ls");
    assert_eq!(join_dir("/usr/bin", "/bin/ls"), "/bin/ls");
}

#[test]
fn unlisted_name_is_not_found() {
    let r = ExternalCommand::find_command("nonexistent-cmd-xyz", Some("/bin:/usr/bin"), nothing_present);
    assert_eq!(r, Ok(None));
    let c = Command::find("nonexistent-cmd-xyz", Some("/bin:/usr/bin"), nothing_present);
    assert_eq!(c, Ok(Command::NotFound("nonexistent-cmd-xyz".to_string())));
    let e = c.unwrap().execute(&Vec::new());
    match e {
        Execution::Done(Err(err)) => {
            assert!(err.message().contains("nonexistent-cmd-xyz"));
        },
        _ => panic!("expected an error"),
    }
}

#[test]
fn literal_path_is_found_without_path_variable() {
    let present = |p: &str| p == "./script.sh";
    let r = ExternalCommand::find_command("./script.sh", None, present);
    assert_eq!(r, Ok(Some(ExternalCommand { path: "./script.sh".to_string() })));
    let r = ExternalCommand::find_command("./script.sh", Some("/bin"), present);
    assert_eq!(r, Ok(Some(ExternalCommand { path: "./script.sh".to_string() })));
}

#[test]
fn missing_path_variable_is_an_error() {
    let r = ExternalCommand::find_command("ls", None, nothing_present);
    assert_eq!(r, Err(ShellError::MissingPathVariable));
    let c = Command::find("ls", None, nothing_present);
    assert_eq!(c, Err(ShellError::MissingPathVariable));
}

#[test]
fn builtins_need_no_path_variable() {
    assert_eq!(Command::find("echo", None, nothing_present), Ok(Command::Builtin(BuiltinCommand::Echo)));
}

#[test]
fn first_directory_with_the_name_wins() {
    let present = |p: &str| p == "/b/ls" || p == "/c/ls";
    let r = ExternalCommand::find_command("ls", Some("/a:/b:/c"), present);
    assert_eq!(r, Ok(Some(ExternalCommand { path: "/b/ls".to_string() })));
}

#[test]
fn redirection_is_taken_out() {
    let r = Output::parse_args(&strings(&["a", "b", ">", "out.txt"]));
    assert_eq!(r, Ok((Output::File("out.txt".to_string()), strings(&["a", "b"]))));
    let r = Output::parse_args(&strings(&["a", "b"]));
    assert_eq!(r, Ok((Output::Stdout, strings(&["a", "b"]))));
    let r = Output::parse_args(&strings(&["a", ">", "x", ">", "y"]));
    assert_eq!(r, Err(ShellError::MultipleRedirections));
}

#[test]
fn redirection_edge_cases() {
    let r = Output::from_args(&strings(&["a", ">"]));
    assert_eq!(r, Err(ShellError::MissingRedirectPath));
    let r = Output::from_args(&strings(&["a", ">", "f", "extra"]));
    assert_eq!(r, Ok((Output::File("f".to_string()), strings(&["a"]))));
    let r = Output::from_args(&Vec::new());
    assert_eq!(r, Ok((Output::Stdout, Vec::new())));
}

#[test]
fn writing_to_file_adds_no_line_break() {
    let e = Output::File("p".to_string()).write("T".to_string());
    assert_eq!(e, Emission { stream: Stream::File("p".to_string()), text: "T".to_string() });
    let e = Output::Stdout.write("T".to_string());
    assert_eq!(e, Emission { stream: Stream::Stdout, text: "T\n".to_string() });
}

#[test]
fn errors_go_to_stderr_or_the_file() {
    let e = Output::Stdout.write_error(ShellError::MissingRedirectPath);
    assert_eq!(e, Emission { stream: Stream::Stderr, text: "File path not found.\n".to_string() });
    let e = Output::File("p".to_string()).write_error(ShellError::MultipleRedirections);
    assert_eq!(
        e,
        Emission { stream: Stream::File("p".to_string()), text: "Multiple redirections are not supported.".to_string() }
    );
}

#[test]
fn error_messages() {
    assert_eq!(ShellError::NotFound("x".to_string()).message(), "Command not found: \"x\"");
    assert_eq!(ShellError::MissingPathVariable.message(), "environment variable not found: PATH");
    assert_eq!(
        ShellError::SpawnFailed("Permission denied".to_string()).message(),
        "Execute external command error: Permission denied"
    );
    assert_eq!(
        ShellError::ExternalFailed("boom".to_string()).message(),
        "Execute external command error: boom"
    );
}

#[test]
fn finished_process_results() {
    let ok = ProcessRun::Exited { success: true, stdout: "out".to_string(), stderr: "err".to_string() };
    assert_eq!(ExternalCommand::finish(ok), Ok("out".to_string()));
    let bad = ProcessRun::Exited { success: false, stdout: "out".to_string(), stderr: "err".to_string() };
    assert_eq!(ExternalCommand::finish(bad), Err(ShellError::ExternalFailed("err".to_string())));
    let e = finish_run(
        &Output::Stdout,
        ProcessRun::Exited { success: false, stdout: String::new(), stderr: "err".to_string() },
    );
    assert_eq!(e, Emission { stream: Stream::Stderr, text: "Execute external command error: err\n".to_string() });
    let e = finish_run(&Output::File("f".to_string()), ProcessRun::SpawnFailed("denied".to_string()));
    assert_eq!(
        e,
        Emission { stream: Stream::File("f".to_string()), text: "Execute external command error: denied".to_string() }
    );
}

#[test]
fn line_echo_hello_world() {
    let r = interpret_line("echo hello world", Some("/bin"), nothing_present);
    assert_eq!(r, LineAction::Emit(Emission { stream: Stream::Stdout, text: "hello world\n".to_string() }));
}

#[test]
fn line_echo_redirected() {
    let r = interpret_line("echo hi > /tmp/out.txt", Some("/bin"), nothing_present);
    assert_eq!(
        r,
        LineAction::Emit(Emission { stream: Stream::File("/tmp/out.txt".to_string()), text: "hi".to_string() })
    );
}

#[test]
fn line_unknown_command() {
    let r = interpret_line("nonexistent-cmd-xyz", Some("/bin:/usr/bin"), nothing_present);
    assert_eq!(
        r,
        LineAction::Emit(Emission {
            stream: Stream::Stderr,
            text: "Command not found: \"nonexistent-cmd-xyz\"\n".to_string(),
        })
    );
}

#[test]
fn line_exit() {
    assert_eq!(interpret_line("exit", None, nothing_present), LineAction::Terminate(0));
}

#[test]
fn line_skips_blank_and_comment() {
    assert_eq!(interpret_line("", None, nothing_present), LineAction::Skip);
    assert_eq!(interpret_line("   \n", None, nothing_present), LineAction::Skip);
    assert_eq!(interpret_line("# echo hi", None, nothing_present), LineAction::Skip);
}

#[test]
fn line_external_is_run() {
    let present = |p: &str| p == "/usr/bin/ls";
    let r = interpret_line("ls -l > list.txt", Some("/bin:/usr/bin"), present);
    assert_eq!(
        r,
        LineAction::Run {
            command: ExternalCommand { path: "/usr/bin/ls".to_string() },
            args: strings(&["-l"]),
            output: Output::File("list.txt".to_string()),
        }
    );
}

#[test]
fn line_missing_path_is_fatal() {
    assert_eq!(interpret_line("ls", None, nothing_present), LineAction::Fatal(ShellError::MissingPathVariable));
}

#[test]
fn line_bad_redirection_is_reported() {
    let r = interpret_line("echo a > x > y", Some("/bin"), nothing_present);
    assert_eq!(
        r,
        LineAction::Emit(Emission {
            stream: Stream::Stderr,
            text: "Multiple redirections are not supported.\n".to_string(),
        })
    );
}
