use today_tmp::gitrepo::{git_init_outcome, RunError};

#[test]
fn successful_exit_is_ok() {
    let out = String::from("Initialized empty Git repository");
    let err = String::new();
    assert!(git_init_outcome(true, &out, &err).is_ok());
}

#[test]
fn failed_exit_carries_stdout() {
    let out = String::from("some output");
    let err = String::new();
    match git_init_outcome(false, &out, &err) {
        Err(RunError::GitInit(m)) => assert_eq!(m, "some output"),
        _ => panic!("expected a git-init error"),
    }
}

#[test]
fn failed_exit_carries_stderr() {
    let out = String::new();
    let err = String::from("fatal: cannot init");
    match git_init_outcome(false, &out, &err) {
        Err(RunError::GitInit(m)) => assert_eq!(m, "fatal: cannot init"),
        _ => panic!("expected a git-init error"),
    }
}

#[test]
fn failed_exit_joins_both_streams() {
    let out = String::from("warning: something");
    let err = String::from("fatal: cannot init");
    match git_init_outcome(false, &out, &err) {
        Err(RunError::GitInit(m)) => assert_eq!(m, "warning: something\nfatal: cannot init"),
        _ => panic!("expected a git-init error"),
    }
}

#[test]
fn failed_exit_with_silent_streams() {
    let out = String::new();
    let err = String::new();
    match git_init_outcome(false, &out, &err) {
        Err(RunError::GitInit(m)) => assert_eq!(m, ""),
        _ => panic!("expected a git-init error"),
    }
}

#[test]
fn error_variants_keep_their_texts() {
    let io = RunError::Io(String::from("failed to create /r"));
    let process = RunError::Process(String::from("failed to execute git"));
    match io {
        RunError::Io(m) => assert_eq!(m, "failed to create /r"),
        _ => panic!("expected an io error"),
    }
    match process {
        RunError::Process(m) => assert_eq!(m, "failed to execute git"),
        _ => panic!("expected a process error"),
    }
}
