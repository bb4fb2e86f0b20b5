use cmd_lib::cmd::Cmd;
use cmd_lib::cmd::Registry;
use cmd_lib::env::CmdEnv;
use cmd_lib::errors::CmdError;
use cmd_lib::errors::CmdErrorKind;
use cmd_lib::errors::i32_to_string;
use cmd_lib::errors::spawn_error;
use cmd_lib::errors::status_error;
use cmd_lib::errors::u64_to_string;
use cmd_lib::group::GroupCmds;
use cmd_lib::group::resolve_fallback;
use cmd_lib::pipeline::BuiltinInput;
use cmd_lib::pipeline::Cmds;
use cmd_lib::pipeline::StdinWiring;
use cmd_lib::pipeline::StdoutWiring;
use cmd_lib::pipeline::builtin_input;
use cmd_lib::pipeline::external_stdin_wiring;
use cmd_lib::pipeline::external_stdout_wiring;
use cmd_lib::waiter::StageResult;
use cmd_lib::waiter::StageStatus;
use cmd_lib::waiter::bytes_to_string_lossy;
use cmd_lib::waiter::debug_enabled;
use cmd_lib::waiter::decode_output;
use cmd_lib::waiter::pipefail_enabled;
use cmd_lib::waiter::pipeline_verdict;
use cmd_lib::waiter::trim_trailing_newline;
use cmd_lib::waiter::wait_order;

fn ok_stage(cmd: &str) -> StageResult {
    StageResult {
        status: StageStatus { success: true, code: Some(0), desc: String::new() },
        cmd: cmd.to_string(),
    }
}

fn failed_stage(cmd: &str, code: i32) -> StageResult {
    StageResult {
        status: StageStatus { success: false, code: Some(code), desc: String::new() },
        cmd: cmd.to_string(),
    }
}

#[test]
fn test_number_rendering() {
    assert_eq!(u64_to_string(0), "0");
    assert_eq!(u64_to_string(7), "7");
    assert_eq!(u64_to_string(10), "10");
    assert_eq!(u64_to_string(65535), "65535");
    assert_eq!(i32_to_string(1), "1");
    assert_eq!(i32_to_string(-9), "-9");
    assert_eq!(i32_to_string(i32::MIN), "-2147483648");
}

#[test]
fn test_status_error_messages() {
    let cmd = "[\"false\"]".to_string();
    let e = status_error(&cmd, Some(1), &String::new());
    assert_eq!(e.kind, CmdErrorKind::Exit);
    assert_eq!(e.message, "[\"false\"] exited with error; status code: 1");

    let e = status_error(&cmd, None, &"signal: 9 (SIGKILL)".to_string());
    assert_eq!(e.kind, CmdErrorKind::Signal);
    assert_eq!(e.message, "[\"false\"] exited with error; terminated by signal: 9 (SIGKILL)");
}

#[test]
fn test_spawn_error_contains_debug_str() {
    let registry = Registry::new();
    let c = Cmd::default().add_arg("missing_binary_xyz".to_string(), &registry);
    let e = spawn_error(&c.debug_str(), &"No such file or directory".to_string());
    assert_eq!(e.kind, CmdErrorKind::Spawn);
    assert!(e.message.contains("[\"missing_binary_xyz\"]"));
    assert_eq!(e.message, "[\"missing_binary_xyz\"]: No such file or directory");
}

#[test]
fn test_pipefail_toggle_verdict() {
    // a failing non-final stage with a succeeding final stage
    let results = vec![failed_stage("[\"false\"]", 1), ok_stage("[\"echo\", \"ok\"]")];
    let e = pipeline_verdict(&results, true).unwrap_err();
    assert_eq!(e.kind, CmdErrorKind::Exit);
    assert_eq!(e.message, "[\"false\"] exited with error; status code: 1");
    assert!(pipeline_verdict(&results, false).is_ok());
}

#[test]
fn test_final_stage_failure_always_fatal() {
    let results = vec![ok_stage("[\"echo\"]"), failed_stage("[\"cat\", \"gone\"]", 2)];
    let e = pipeline_verdict(&results, false).unwrap_err();
    assert_eq!(e.message, "[\"cat\", \"gone\"] exited with error; status code: 2");
    assert!(pipeline_verdict(&results, true).is_err());
}

#[test]
fn test_verdict_reports_latest_failure() {
    let results = vec![
        failed_stage("[\"a\"]", 1),
        failed_stage("[\"b\"]", 2),
        ok_stage("[\"c\"]"),
    ];
    let e = pipeline_verdict(&results, true).unwrap_err();
    assert_eq!(e.message, "[\"b\"] exited with error; status code: 2");

    assert!(pipeline_verdict(&Vec::new(), true).is_ok());
}

#[test]
fn test_wait_order_is_reverse_and_complete() {
    assert_eq!(wait_order(0), Vec::<usize>::new());
    let v = wait_order(4);
    assert_eq!(v, vec![3, 2, 1, 0]);
    let mut seen = vec![false; 4];
    for i in v {
        assert!(!seen[i]);
        seen[i] = true;
    }
    assert!(seen.iter().all(|s| *s));
}

#[test]
fn test_decode_output_trims_one_newline() {
    assert_eq!(decode_output(&b"rust\n".to_vec()), "rust");
    assert_eq!(decode_output(&b"rust".to_vec()), "rust");
    assert_eq!(decode_output(&b"a\n\n".to_vec()), "a\n");
    assert_eq!(decode_output(&b"".to_vec()), "");
    assert_eq!(trim_trailing_newline("5\n".to_string()), "5");
    assert_eq!(trim_trailing_newline("\n".to_string()), "");
}

#[test]
fn test_lossy_decoding_replaces_invalid_bytes() {
    assert_eq!(bytes_to_string_lossy(&vec![0xff]), "\u{FFFD}");
    assert_eq!(bytes_to_string_lossy(&b"ok".to_vec()), "ok");
}

#[test]
fn test_runtime_flags() {
    assert!(pipefail_enabled(None));
    assert!(pipefail_enabled(Some(&"1".to_string())));
    assert!(!pipefail_enabled(Some(&"0".to_string())));
    assert!(!debug_enabled(None));
    assert!(debug_enabled(Some(&"1".to_string())));
    assert!(!debug_enabled(Some(&"0".to_string())));
}

#[test]
fn test_group_take_single() {
    let registry = Registry::new();
    let one = GroupCmds::default().add(
        Cmds::default().pipe(Cmd::default().add_arg("echo".to_string(), &registry)),
        None,
    );
    assert!(one.take_single().is_ok());

    let none = GroupCmds::default();
    match none.take_single() {
        Ok(_) => panic!("an empty group must be rejected"),
        Err(e) => {
            assert_eq!(e.kind, CmdErrorKind::Setup);
            assert_eq!(e.message, "spawn: the group must hold exactly one pipeline");
        }
    }

    let two = GroupCmds::default()
        .add(
            Cmds::default().pipe(Cmd::default().add_arg("a".to_string(), &registry)),
            None,
        )
        .add(
            Cmds::default().pipe(Cmd::default().add_arg("b".to_string(), &registry)),
            None,
        );
    assert!(two.take_single().is_err());

    let empty_pipe = GroupCmds::default().add(Cmds::default(), None);
    match empty_pipe.take_single() {
        Ok(_) => panic!("an empty pipeline must be rejected"),
        Err(e) => assert_eq!(e.message, "spawn: the pipeline holds no stage"),
    }
}

#[test]
fn test_resolve_fallback_semantics() {
    let err = |m: &str| CmdError { kind: CmdErrorKind::Exit, message: m.to_string() };

    let r: Result<(), CmdError> = resolve_fallback(Ok(()), None);
    assert!(r.is_ok());
    let r: Result<(), CmdError> = resolve_fallback(Err(err("first")), None);
    assert_eq!(r.unwrap_err().message, "first");
    let r: Result<(), CmdError> = resolve_fallback(Err(err("first")), Some(Ok(())));
    assert!(r.is_ok());
    let r: Result<(), CmdError> = resolve_fallback(Err(err("first")), Some(Err(err("second"))));
    assert_eq!(r.unwrap_err().message, "second");
}

#[test]
fn test_wiring_decisions() {
    assert_eq!(external_stdin_wiring(true, false, None), StdinWiring::Inherit);
    assert_eq!(external_stdin_wiring(true, false, Some(0)), StdinWiring::FromOpen(0));
    assert_eq!(external_stdin_wiring(false, true, Some(0)), StdinWiring::FromPrevChild);
    assert_eq!(external_stdin_wiring(false, false, None), StdinWiring::PipedForBuffer);

    assert_eq!(external_stdout_wiring(true, false, None), StdoutWiring::Inherit);
    assert_eq!(external_stdout_wiring(true, true, None), StdoutWiring::Piped);
    assert_eq!(external_stdout_wiring(false, false, None), StdoutWiring::Piped);
    assert_eq!(external_stdout_wiring(true, false, Some(2)), StdoutWiring::ToOpen(2));

    assert_eq!(builtin_input(true, None), BuiltinInput::Empty);
    assert_eq!(builtin_input(true, Some(1)), BuiltinInput::FromOpen(1));
    assert_eq!(builtin_input(false, None), BuiltinInput::FromPrev);
}

#[test]
fn test_full_cmds_rendering() {
    let registry = Registry::new();
    let cmds = Cmds::default()
        .pipe(Cmd::default().add_args(vec!["echo".to_string(), "rust".to_string()], &registry))
        .pipe(Cmd::default().add_args(vec!["wc".to_string(), "-c".to_string()], &registry));
    assert_eq!(cmds.get_full_cmds(), "[\"echo\", \"rust\"] | [\"wc\", \"-c\"]");
    assert_eq!(cmds.len(), 2);
}

#[test]
fn test_cmd_env_var_lookup_last_wins() {
    let vars = vec![
        ("A".to_string(), "1".to_string()),
        ("B".to_string(), "x".to_string()),
        ("A".to_string(), "2".to_string()),
    ];
    let env = CmdEnv::new(vec!["echo".to_string()], vars, "/tmp".to_string());
    assert_eq!(env.var("A").unwrap(), "2");
    assert_eq!(env.var("B").unwrap(), "x");
    assert!(env.var("C").is_none());
    assert_eq!(env.current_dir(), "/tmp");
    assert_eq!(env.args(), &["echo".to_string()]);
}

#[test]
fn test_cmd_env_buffers() {
    let mut env = CmdEnv::new(Vec::new(), Vec::new(), String::new());
    assert!(env.stdin().is_empty());
    env.set_stdin(b"input".to_vec());
    assert_eq!(env.stdin(), b"input");
    env.stdout().extend_from_slice(b"out");
    env.stderr().extend_from_slice(b"err");
    assert_eq!(env.errbuf(), &b"err".to_vec());
    assert_eq!(env.take_outbuf(), b"out".to_vec());
}
