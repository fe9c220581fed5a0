use rust_minicat::cli::{config_from_flags, get_args, open_failure_message, reads_stdin};
use rust_minicat::{ArgsError, Config};

fn args(v: &[&str]) -> Vec<String> {
    v.iter().map(|s| s.to_string()).collect()
}

fn accepted(v: &[&str]) -> Config {
    match get_args(&args(v)) {
        Ok(c) => c,
        Err(e) => panic!("refused {:?}: {:?}", v, e),
    }
}

#[test]
fn no_files_reads_stdin() {
    let c = accepted(&["minicat"]);
    assert_eq!(c.files(), &args(&[""]));
    assert!(!c.count_lines());
    assert!(!c.nonblank_number());
}

#[test]
fn files_in_order_with_number_flag() {
    let c = accepted(&["minicat", "-n", "a.txt", "b.txt"]);
    assert_eq!(c.files(), &args(&["a.txt", "b.txt"]));
    assert!(c.count_lines());
    assert!(!c.nonblank_number());
}

#[test]
fn nonblank_flag() {
    let c = accepted(&["minicat", "-b", "x"]);
    assert_eq!(c.files(), &args(&["x"]));
    assert!(!c.count_lines());
    assert!(c.nonblank_number());
}

#[test]
fn number_and_nonblank_rejected() {
    match get_args(&args(&["minicat", "-n", "-b", "f"])) {
        Err(ArgsError::Usage(u)) => assert_ne!(u.exit_code, 0),
        Err(ArgsError::ConflictingFlags) => {}
        Ok(c) => panic!("accepted {:?}", c),
    }
}

#[test]
fn hyphen_names_are_files() {
    let c = accepted(&["minicat", "--bogus"]);
    assert_eq!(c.files(), &args(&["--bogus"]));
    let c = accepted(&["minicat", "-b", "a", "-", "-n"]);
    assert_eq!(c.files(), &args(&["a", "-", "-n"]));
    assert!(c.nonblank_number());
    assert!(!c.count_lines());
}

#[test]
fn version_is_not_a_failure() {
    match get_args(&args(&["minicat", "--version"])) {
        Err(ArgsError::Usage(u)) => {
            assert_eq!(u.exit_code, 0);
            assert!(u.message.contains("0.1.0"));
        }
        other => panic!("unexpected {:?}", other),
    }
}

#[test]
fn help_is_not_a_failure() {
    match get_args(&args(&["minicat", "--help"])) {
        Err(ArgsError::Usage(u)) => {
            assert_eq!(u.exit_code, 0);
            assert!(u.message.contains("Number only nonblank lines"));
        }
        other => panic!("unexpected {:?}", other),
    }
}

#[test]
fn empty_file_list_maps_to_stdin() {
    let c = config_from_flags(vec![], false, false).unwrap();
    assert_eq!(c.files(), &args(&[""]));
    let c = config_from_flags(args(&["-", "z"]), true, false).unwrap();
    assert_eq!(c.files(), &args(&["-", "z"]));
}

#[test]
fn stdin_is_the_empty_name() {
    assert!(reads_stdin(""));
    assert!(!reads_stdin("a.txt"));
    assert!(!reads_stdin(" "));
}

#[test]
fn open_failure_names_the_file() {
    let m = open_failure_message("missing.txt", "No such file or directory (os error 2)");
    assert_eq!(
        m,
        "Failed to open missing.txt due to No such file or directory (os error 2)"
    );
}

#[test]
fn combined_short_flags_rejected() {
    match get_args(&args(&["minicat", "-nb", "a.txt"])) {
        Err(ArgsError::Usage(u)) => assert_ne!(u.exit_code, 0),
        Err(ArgsError::ConflictingFlags) => {}
        Ok(c) => panic!("accepted {:?}", c),
    }
    match get_args(&args(&["minicat", "-b", "-n"])) {
        Err(ArgsError::Usage(u)) => assert_ne!(u.exit_code, 0),
        Err(ArgsError::ConflictingFlags) => {}
        Ok(c) => panic!("accepted {:?}", c),
    }
}
