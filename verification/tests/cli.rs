use cmakr::cli::{
    parse_command_line, request_of_flags, split_arguments, usage, Flags, Request, RunRequest,
};
use cmakr::error::Error;

fn strings(items: &[&str]) -> Vec<String> {
    items.iter().map(|s| s.to_string()).collect()
}

fn build(target: Option<&str>) -> Request {
    Request::Build { target: target.map(|t| t.to_string()), run: None }
}

fn build_and_run(target: Option<&str>, binary: Option<&str>, args: &[&str]) -> Request {
    Request::Build {
        target: target.map(|t| t.to_string()),
        run: Some(RunRequest { binary: binary.map(|b| b.to_string()), args: strings(args) }),
    }
}

#[test]
fn split_without_separator_keeps_everything() {
    assert_eq!(split_arguments(&strings(&["a", "-b", "c"])), (strings(&["a", "-b", "c"]), vec![]));
    assert_eq!(split_arguments(&vec![]), (vec![], vec![]));
}

#[test]
fn split_cuts_at_the_first_separator() {
    assert_eq!(
        split_arguments(&strings(&["a", "--", "b", "--", "c"])),
        (strings(&["a"]), strings(&["b", "--", "c"]))
    );
    assert_eq!(split_arguments(&strings(&["--", "x"])), (vec![], strings(&["x"])));
    assert_eq!(split_arguments(&strings(&["x", "--"])), (strings(&["x"]), vec![]));
    assert_eq!(split_arguments(&strings(&["--"])), (vec![], vec![]));
    assert_eq!(split_arguments(&strings(&["---", "-"])), (strings(&["---", "-"]), vec![]));
}

#[test]
fn flags_with_help_ask_for_help() {
    let flags = Flags { help: true, run: true, binary: None, free: strings(&["debug"]) };
    assert_eq!(request_of_flags(flags, strings(&["x"])), Request::Help);
}

#[test]
fn flags_without_run_drop_the_trailing_args() {
    let flags = Flags { help: false, run: false, binary: None, free: strings(&["debug", "more"]) };
    assert_eq!(request_of_flags(flags, strings(&["x"])), build(Some("debug")));
    let flags = Flags { help: false, run: false, binary: None, free: vec![] };
    assert_eq!(request_of_flags(flags, vec![]), build(None));
}

#[test]
fn flags_with_run_pass_the_trailing_args_on() {
    let flags = Flags {
        help: false,
        run: true,
        binary: Some("app".to_string()),
        free: strings(&["debug"]),
    };
    assert_eq!(
        request_of_flags(flags, strings(&["--flag", "y"])),
        build_and_run(Some("debug"), Some("app"), &["--flag", "y"])
    );
    let flags = Flags { help: false, run: true, binary: None, free: vec![] };
    assert_eq!(request_of_flags(flags, vec![]), build_and_run(None, None, &[]));
}

#[test]
fn empty_command_line_builds_the_default() {
    assert_eq!(parse_command_line(&vec![]), Ok(build(None)));
}

#[test]
fn first_free_argument_names_the_target() {
    assert_eq!(parse_command_line(&strings(&["debug"])), Ok(build(Some("debug"))));
    assert_eq!(parse_command_line(&strings(&["debug", "release"])), Ok(build(Some("debug"))));
}

#[test]
fn help_flag_asks_for_help() {
    assert_eq!(parse_command_line(&strings(&["-h"])), Ok(Request::Help));
    assert_eq!(parse_command_line(&strings(&["--help"])), Ok(Request::Help));
    assert_eq!(parse_command_line(&strings(&["debug", "--run=app", "-h"])), Ok(Request::Help));
}

#[test]
fn run_option_without_a_value_runs_the_default_binary() {
    assert_eq!(
        parse_command_line(&strings(&["debug", "-r"])),
        Ok(build_and_run(Some("debug"), None, &[]))
    );
    assert_eq!(
        parse_command_line(&strings(&["--run", "debug"])),
        Ok(build_and_run(Some("debug"), None, &[]))
    );
}

#[test]
fn run_option_with_a_value_names_the_binary() {
    assert_eq!(
        parse_command_line(&strings(&["debug", "--run=app"])),
        Ok(build_and_run(Some("debug"), Some("app"), &[]))
    );
    assert_eq!(
        parse_command_line(&strings(&["-rapp", "debug"])),
        Ok(build_and_run(Some("debug"), Some("app"), &[]))
    );
    assert_eq!(
        parse_command_line(&strings(&["-r", "app"])),
        Ok(build_and_run(None, Some("app"), &[]))
    );
}

#[test]
fn scenario_run_with_trailing_flag() {
    assert_eq!(
        parse_command_line(&strings(&["debug", "--run=app", "--", "--flag"])),
        Ok(build_and_run(Some("debug"), Some("app"), &["--flag"]))
    );
}

#[test]
fn trailing_args_are_not_scanned() {
    assert_eq!(
        parse_command_line(&strings(&["-r", "--", "-h", "--bogus", "--", "x"])),
        Ok(build_and_run(None, None, &["-h", "--bogus", "--", "x"]))
    );
    assert_eq!(parse_command_line(&strings(&["debug", "--", "-h"])), Ok(build(Some("debug"))));
}

#[test]
fn unknown_option_is_refused() {
    assert_eq!(
        parse_command_line(&strings(&["--bogus"])),
        Err(Error::InvalidArguments("Unrecognized option: 'bogus'".to_string()))
    );
    assert_eq!(
        parse_command_line(&strings(&["-x", "debug"])),
        Err(Error::InvalidArguments("Unrecognized option: 'x'".to_string()))
    );
}

#[test]
fn repeated_option_is_refused() {
    assert_eq!(
        parse_command_line(&strings(&["-r", "--run"])),
        Err(Error::InvalidArguments("Option 'run' given more than once".to_string()))
    );
}

#[test]
fn value_for_the_help_flag_is_refused() {
    assert_eq!(
        parse_command_line(&strings(&["--help=yes"])),
        Err(Error::InvalidArguments("Option 'help' does not take an argument".to_string()))
    );
}

#[test]
fn usage_lists_both_options() {
    let expected = "Usage: cmakr FILE [options]\n\nOptions:\n    -r, --run [Hint? Wut?]\n                        Run a binary after building\n    -h, --help          print this help menu\n";
    assert_eq!(usage("cmakr"), expected);
}

#[test]
fn usage_names_the_program() {
    assert!(usage("/usr/bin/launcher").starts_with("Usage: /usr/bin/launcher FILE [options]\n"));
}
