use ocpp_client::arguments::{flag_argument, parse_cli_args, ArgsOutcome, CliArgs};

fn args(list: &[&str]) -> Vec<String> {
    list.iter().map(|s| s.to_string()).collect()
}

fn run(list: &[&str]) -> CliArgs {
    match parse_cli_args(&args(list), None).unwrap() {
        ArgsOutcome::Run(a) => a,
        ArgsOutcome::Help => panic!("expected a run"),
    }
}

#[test]
fn help_without_arguments_or_when_asked() {
    assert_eq!(parse_cli_args(&args(&["prog"]), None), Ok(ArgsOutcome::Help));
    assert_eq!(parse_cli_args(&args(&["prog", "--server", "-h"]), None), Ok(ArgsOutcome::Help));
    assert_eq!(parse_cli_args(&args(&["prog", "--help"]), None), Ok(ArgsOutcome::Help));
}

#[test]
fn both_parts_run_by_default() {
    let a = run(&["prog", "--speed", "2.0"]);
    assert!(a.run_server && a.run_client);
    assert_eq!(a.speed_text.as_deref(), Some("2.0"));
    assert_eq!(a.test_length, 1000);
    assert_eq!(a.data_directory, "./data");
    assert_eq!(a.test_file, None);
    let a = run(&["prog", "--server"]);
    assert!(a.run_server && !a.run_client);
}

#[test]
fn client_with_a_scenario() {
    let a = run(&["prog", "--client", "--test", "test_0_1.json", "--test_length", "60", "--data_directory", "/tmp/d"]);
    assert!(!a.run_server && a.run_client);
    assert_eq!(a.test_file.as_deref(), Some("test_0_1.json"));
    assert_eq!(a.test_length, 60);
    assert_eq!(a.data_directory, "/tmp/d");
}

#[test]
fn argument_errors() {
    assert_eq!(parse_cli_args(&args(&["prog", "--client", "--test"]), None).unwrap_err(), "--test requires a filename argument");
    assert_eq!(parse_cli_args(&args(&["prog", "--speed"]), None).unwrap_err(), "--speed requires a numeric argument");
    assert_eq!(
        parse_cli_args(&args(&["prog", "--speed", "fast"]), Some("Invalid speed value: fast".to_string())).unwrap_err(),
        "Invalid speed value: fast"
    );
    assert_eq!(parse_cli_args(&args(&["prog", "--test_length"]), None).unwrap_err(), "--test_length requires a numeric argument");
    assert_eq!(parse_cli_args(&args(&["prog", "--test_length", "x"]), None).unwrap_err(), "Invalid test_length value: x");
    assert_eq!(parse_cli_args(&args(&["prog", "--test_length", "0"]), None).unwrap_err(), "Test length must be greater than 0");
    assert_eq!(parse_cli_args(&args(&["prog", "--data_directory"]), None).unwrap_err(), "--data_directory requires a path argument");
    assert_eq!(
        parse_cli_args(&args(&["prog", "--server", "--test", "t.json"]), None).unwrap_err(),
        "--test can only be used with --client mode"
    );
}

#[test]
fn speed_errors_come_before_length_errors() {
    assert_eq!(
        parse_cli_args(&args(&["prog", "--speed", "-1", "--test_length", "0"]), Some("Speed multiplier must be positive".to_string()))
            .unwrap_err(),
        "Speed multiplier must be positive"
    );
}

#[test]
fn flag_values() {
    let a = args(&["prog", "--speed", "3", "--speed", "4"]);
    assert_eq!(flag_argument(&a, "--speed"), Some(Some("3".to_string())));
    assert_eq!(flag_argument(&a, "--test"), None);
    assert_eq!(flag_argument(&args(&["prog", "--test"]), "--test"), Some(None));
}
