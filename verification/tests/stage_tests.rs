use cmd_lib::cmd::Cmd;
use cmd_lib::cmd::Registry;
use cmd_lib::cmd::StageKind;
use cmd_lib::cmd::parse_env_assign;
use cmd_lib::errors::CmdErrorKind;
use cmd_lib::redirect::OpenMode;
use cmd_lib::redirect::Redirect;
use cmd_lib::redirect::plan_redirects;

fn reg() -> Registry {
    Registry::new()
}

#[test]
fn test_parse_env_assign_accepts() {
    let r = parse_env_assign("A=1").unwrap();
    assert_eq!(r.0, "A");
    assert_eq!(r.1, "1");

    let r = parse_env_assign("FOO_2=bar baz").unwrap();
    assert_eq!(r.0, "FOO_2");
    assert_eq!(r.1, "bar baz");

    let r = parse_env_assign("X=").unwrap();
    assert_eq!(r.0, "X");
    assert_eq!(r.1, "");
}

#[test]
fn test_parse_env_assign_rejects() {
    assert!(parse_env_assign("echo").is_none());
    assert!(parse_env_assign("=x").is_none());
    assert!(parse_env_assign("A=B=C").is_none());
    assert!(parse_env_assign("A-B=1").is_none());
    assert!(parse_env_assign("").is_none());
    assert!(parse_env_assign("A B=1").is_none());
}

#[test]
fn test_env_extraction_prefix_only() {
    let registry = reg();
    let c = Cmd::default().add_args(
        vec!["A=1".to_string(), "echo".to_string(), "B=2".to_string()],
        &registry,
    );
    assert_eq!(c.envs().len(), 1);
    assert_eq!(c.envs()[0].0, "A");
    assert_eq!(c.envs()[0].1, "1");
    assert_eq!(c.args().len(), 2);
    assert_eq!(c.args()[0], "echo");
    assert_eq!(c.args()[1], "B=2");
}

#[test]
fn test_env_peel_takes_longest_assignment_prefix() {
    let registry = reg();
    let c = Cmd::default().add_args(
        vec![
            "A=1".to_string(),
            "B=2".to_string(),
            "echo".to_string(),
            "C=3".to_string(),
        ],
        &registry,
    );
    assert_eq!(c.envs().len(), 2);
    assert_eq!(c.envs()[0], ("A".to_string(), "1".to_string()));
    assert_eq!(c.envs()[1], ("B".to_string(), "2".to_string()));
    assert_eq!(c.args(), &vec!["echo".to_string(), "C=3".to_string()]);
    assert!(!c.is_builtin());
}

#[test]
fn test_builtin_classification_fixed_at_first_arg() {
    let mut registry = reg();
    registry.register("my_builtin".to_string());
    let c = Cmd::default().add_arg("my_builtin".to_string(), &registry);
    assert!(c.is_builtin());
    assert_eq!(c.kind(), StageKind::Builtin);

    let c2 = Cmd::default().add_arg("not_registered".to_string(), &registry);
    assert!(!c2.is_builtin());
    assert_eq!(c2.kind(), StageKind::External);

    let c3 = Cmd::default().add_args(vec!["cd".to_string(), "/tmp".to_string()], &registry);
    assert_eq!(c3.kind(), StageKind::Cd);
}

#[test]
fn test_registry_contains() {
    let mut registry = reg();
    assert!(registry.contains(""));
    assert!(!registry.contains("echo"));
    registry.register("echo".to_string());
    assert!(registry.contains("echo"));
}

#[test]
fn test_redirect_render_tokens() {
    assert_eq!(Redirect::FileToStdin("in.txt".to_string()).render(), "< in.txt");
    assert_eq!(Redirect::StdoutToStderr.render(), ">&2");
    assert_eq!(Redirect::StderrToStdout.render(), "2>&1");
    assert_eq!(Redirect::StdoutToFile("o".to_string(), false).render(), "1> o");
    assert_eq!(Redirect::StdoutToFile("o".to_string(), true).render(), "1>> o");
    assert_eq!(Redirect::StderrToFile("e".to_string(), false).render(), "2> e");
    assert_eq!(Redirect::StderrToFile("e".to_string(), true).render(), "2>> e");
}

#[test]
fn test_debug_str_rendering() {
    let registry = reg();
    let c = Cmd::default().add_args(vec!["echo".to_string(), "rust".to_string()], &registry);
    assert_eq!(c.debug_str(), "[\"echo\", \"rust\"]");

    let c = Cmd::default()
        .add_args(vec!["A=1".to_string(), "echo".to_string()], &registry)
        .add_redirect(Redirect::StdoutToStderr);
    assert_eq!(c.debug_str(), "[\"echo\"]({\"A\": \"1\"}, [>&2])");

    let c = Cmd::default()
        .add_args(vec!["A=1".to_string(), "echo".to_string()], &registry);
    assert_eq!(c.debug_str(), "[\"echo\"]({\"A\": \"1\"})");

    let c = Cmd::default()
        .add_arg("wc".to_string(), &registry)
        .add_redirect(Redirect::FileToStdin("in".to_string()));
    assert_eq!(c.debug_str(), "[\"wc\"]([< in])");
}

#[test]
fn test_redirect_current_target() {
    // `2> err 1>&2` must land stdout in `err`, not in the inherited stderr
    let rs = vec![
        Redirect::StderrToFile("err".to_string(), false),
        Redirect::StdoutToStderr,
    ];
    let plan = plan_redirects(&rs);
    assert_eq!(plan.opens.len(), 1);
    assert_eq!(plan.opens[0].path, "err");
    assert_eq!(plan.opens[0].mode, OpenMode::Write { append: false });
    assert_eq!(plan.stdout_open, Some(0));
    assert_eq!(plan.stderr_open, Some(0));
    assert_eq!(plan.stdin_open, None);
}

#[test]
fn test_redirect_dup_without_target_opens_device() {
    let rs = vec![Redirect::StdoutToStderr];
    let plan = plan_redirects(&rs);
    assert_eq!(plan.opens.len(), 1);
    assert_eq!(plan.opens[0].path, "/dev/stderr");
    assert_eq!(plan.opens[0].mode, OpenMode::Write { append: true });
    assert_eq!(plan.stdout_open, Some(0));
    assert_eq!(plan.stderr_open, None);
}

#[test]
fn test_redirect_plan_order_and_last_wins() {
    let rs = vec![
        Redirect::FileToStdin("a".to_string()),
        Redirect::StdoutToFile("b".to_string(), true),
        Redirect::StdoutToFile("c".to_string(), false),
    ];
    let plan = plan_redirects(&rs);
    // every open happens, in order; the stream follows the latest one
    assert_eq!(plan.opens.len(), 3);
    assert_eq!(plan.opens[0].path, "a");
    assert_eq!(plan.opens[0].mode, OpenMode::Read);
    assert_eq!(plan.opens[1].path, "b");
    assert_eq!(plan.opens[1].mode, OpenMode::Write { append: true });
    assert_eq!(plan.opens[2].path, "c");
    assert_eq!(plan.stdin_open, Some(0));
    assert_eq!(plan.stdout_open, Some(2));
}

#[test]
fn test_run_cd_cmd_updates_dir() {
    let registry = reg();
    let c = Cmd::default().add_args(vec!["cd".to_string(), "/tmp".to_string()], &registry);
    let mut dir = String::new();
    let r = c.run_cd_cmd(&mut dir);
    assert!(r.is_ok());
    assert_eq!(dir, "/tmp");
}

#[test]
fn test_run_cd_cmd_rejects_bad_usage() {
    let registry = reg();
    let mut dir = "before".to_string();

    let c = Cmd::default().add_arg("cd".to_string(), &registry);
    let e = c.run_cd_cmd(&mut dir).unwrap_err();
    assert_eq!(e.kind, CmdErrorKind::Setup);
    assert_eq!(e.message, "cd: missing directory");
    assert_eq!(dir, "before");

    let c = Cmd::default().add_args(
        vec!["cd".to_string(), "/tmp".to_string(), "extra".to_string()],
        &registry,
    );
    let e = c.run_cd_cmd(&mut dir).unwrap_err();
    assert_eq!(e.kind, CmdErrorKind::Setup);
    assert!(e.message.starts_with("cd: too many arguments: "));
    assert!(e.message.contains("[\"cd\", \"/tmp\", \"extra\"]"));
    assert_eq!(dir, "before");

    let c = Cmd::default().add_args(
        vec!["cd".to_string(), "/no_such_dir_for_this_test".to_string()],
        &registry,
    );
    let e = c.run_cd_cmd(&mut dir).unwrap_err();
    assert_eq!(e.kind, CmdErrorKind::Setup);
    assert_eq!(e.message, "cd: /no_such_dir_for_this_test: No such file or directory");
    assert_eq!(dir, "before");
}
