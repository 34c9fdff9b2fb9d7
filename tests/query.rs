use fshc::outcome::{ExitCodeProvider, FshcError, ProcStats, NO_FILE_HANDLE, PID_LIMIT, UNCLASSIFIED};
use fshc::query::{run, validate_pid, CliArgs};
use sysexits::ExitCode;

fn args(pid: u32, only_total: bool) -> CliArgs {
    CliArgs { only_total, pid }
}

#[test]
fn fail_with_invalid_pid_zero() {
    let r = run(&args(0, false));
    match r {
        Err(e) => {
            assert!(matches!(e, FshcError::PidOutOfRange));
            assert!(e.to_string().contains("only pid numbers between 1 and 99999"));
        }
        Ok(_) => panic!("pid 0 was accepted"),
    }
}

#[test]
fn fail_with_invalid_pid_too_large() {
    let r = run(&args(100000, false));
    match r {
        Err(e) => {
            assert!(matches!(e, FshcError::PidOutOfRange));
            assert!(e.to_string().contains("only pid numbers between 1 and 99999"));
        }
        Ok(_) => panic!("pid 100000 was accepted"),
    }
}

#[test]
fn cli_tests_fail_with_nonexistent_pid() {
    // pid 99999 is very unlikely to exist
    let r = run(&args(99999, false));
    assert!(r.is_err());
}

#[test]
fn unix_tests_fail_with_nonexistent_pid() {
    let r = run(&args(99999, false));
    assert!(matches!(r, Err(FshcError::InvalidInput)));
    let r = run(&args(99999, true));
    assert!(matches!(r, Err(FshcError::InvalidInput)));
}

#[test]
fn validate_pid_bounds() {
    assert!(matches!(validate_pid(&args(1, false)), Ok(1)));
    assert!(matches!(validate_pid(&args(PID_LIMIT, true)), Ok(99999)));
    assert!(matches!(validate_pid(&args(0, false)), Err(FshcError::PidOutOfRange)));
    assert!(matches!(validate_pid(&args(100000, false)), Err(FshcError::PidOutOfRange)));
    assert!(matches!(validate_pid(&args(u32::MAX, false)), Err(FshcError::PidOutOfRange)));
}

#[test]
fn exit_codes_of_errors() {
    assert_eq!(FshcError::PidOutOfRange.exit_code(), ExitCode::DataErr);
    assert_eq!(FshcError::InvalidInput.exit_code(), ExitCode::DataErr);
    assert_eq!(FshcError::PermissionDenied.exit_code(), ExitCode::NoPerm);
    assert_eq!(FshcError::IoError.exit_code(), ExitCode::IoErr);
    assert_eq!(FshcError::Other(UNCLASSIFIED).exit_code(), ExitCode::OsErr);
    assert_eq!(FshcError::Other(NO_FILE_HANDLE).exit_code(), ExitCode::OsErr);
    assert_eq!(FshcError::Errno(String::from("x")).exit_code(), ExitCode::OsErr);
}

#[test]
fn error_texts() {
    assert_eq!(
        FshcError::InvalidInput.to_string(),
        "could not locate a process for the given pid"
    );
    assert_eq!(
        FshcError::PermissionDenied.to_string(),
        "insufficient permission to inspect file descriptors of the target process"
    );
    assert_eq!(
        FshcError::Other(NO_FILE_HANDLE).to_string(),
        "failed to find file handles in the current process"
    );
    assert_eq!(
        FshcError::Other(UNCLASSIFIED).to_string(),
        "failed to fetch file descriptor details for the target process"
    );
    let e = FshcError::from(String::from("failed call code 5"));
    assert!(matches!(&e, FshcError::Errno(s) if s == "failed call code 5"));
    assert_eq!(e.to_string(), "failed call code 5");
}

#[test]
fn new_stats_are_zero() {
    let s = ProcStats::new(42);
    assert_eq!(s.pid, 42);
    assert_eq!(s.total_descriptors, 0);
    assert_eq!(s.socket_descriptors, Some(0));
    assert_eq!(s.file_descriptors, Some(0));
}
