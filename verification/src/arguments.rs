//! The simulator's command line: which parts run, the scenario to load, how fast
//! and how long it runs, and where its data lies.

use vstd::prelude::*;
use vstd::string::*;
use crate::numeric::{parse_u64, parsed_u64};
use crate::text::{opt_text, str_eq, texts};

verus! {

/// The settings that the command line gives. The speed multiplier is kept as the
/// text it was given as.
#[derive(Clone, Debug, PartialEq, Eq)]
pub struct CliArgs {
    pub run_server: bool,
    pub run_client: bool,
    pub test_file: Option<String>,
    pub speed_text: Option<String>,
    pub test_length: u64,
    pub data_directory: String,
}

/// What the command line asks for: the usage text, or a run.
#[derive(Clone, Debug, PartialEq, Eq)]
pub enum ArgsOutcome {
    Help,
    Run(CliArgs),
}

/// The mathematical value of a run's settings.
pub struct CliArgsModel {
    pub run_server: bool,
    pub run_client: bool,
    pub test_file: Option<Seq<char>>,
    pub speed_text: Option<Seq<char>>,
    pub test_length: u64,
    pub data_directory: Seq<char>,
}

/// The mathematical value of an [`ArgsOutcome`].
pub enum ArgsOutcomeModel {
    Help,
    Run(CliArgsModel),
}

impl View for ArgsOutcome {
    type V = ArgsOutcomeModel;

    open spec fn view(&self) -> ArgsOutcomeModel {
        match self {
            ArgsOutcome::Help => ArgsOutcomeModel::Help,
            ArgsOutcome::Run(a) => ArgsOutcomeModel::Run(
                CliArgsModel {
                    run_server: a.run_server,
                    run_client: a.run_client,
                    test_file: opt_text(a.test_file),
                    speed_text: opt_text(a.speed_text),
                    test_length: a.test_length,
                    data_directory: a.data_directory@,
                },
            ),
        }
    }
}

/// The model of a parse result.
pub open spec fn args_result_model(r: Result<ArgsOutcome, String>) -> Result<ArgsOutcomeModel, Seq<char>> {
    match r {
        Ok(o) => Ok(o@),
        Err(m) => Err(m@),
    }
}

/// The position of the first argument from `i` on that is `s`.
pub open spec fn position_from(args: Seq<Seq<char>>, s: Seq<char>, i: int) -> Option<int>
    decreases args.len() - i,
{
    if i < 0 || i >= args.len() {
        None
    } else if args[i] == s {
        Some(i)
    } else {
        position_from(args, s, i + 1)
    }
}

/// The argument that follows the first `flag`: `None` when the flag is absent,
/// `Some(None)` when nothing follows it.
pub open spec fn flag_value(args: Seq<Seq<char>>, flag: Seq<char>) -> Option<Option<Seq<char>>> {
    match position_from(args, flag, 0) {
        Some(p) => Some(if p + 1 < args.len() {
            Some(args[p + 1])
        } else {
            None
        }),
        None => None,
    }
}

/// Whether an argument is `s`.
pub open spec fn has_arg(args: Seq<Seq<char>>, s: Seq<char>) -> bool {
    position_from(args, s, 0) is Some
}

/// The test length that the command line sets, or the message that refuses it.
pub open spec fn test_length_of(args: Seq<Seq<char>>) -> Result<u64, Seq<char>> {
    match flag_value(args, "--test_length"@) {
        None => Ok(1000),
        Some(None) => Err("--test_length requires a numeric argument"@),
        Some(Some(t)) => match parsed_u64(t) {
            None => Err("Invalid test_length value: "@ + t),
            Some(v) => if v == 0 {
                Err("Test length must be greater than 0"@)
            } else {
                Ok(v)
            },
        },
    }
}

/// What a command line asks for. `speed_error` is the message that the speed value
/// given after `--speed` is refused with, if it is.
pub open spec fn args_outcome(args: Seq<Seq<char>>, speed_error: Option<Seq<char>>) -> Result<ArgsOutcomeModel, Seq<char>> {
    if args.len() == 1 || has_arg(args, "--help"@) || has_arg(args, "-h"@) {
        Ok(ArgsOutcomeModel::Help)
    } else {
        let server = has_arg(args, "--server"@);
        let client = has_arg(args, "--client"@);
        let (run_server, run_client) = if !server && !client {
            (true, true)
        } else {
            (server, client)
        };
        match flag_value(args, "--test"@) {
            Some(None) => Err("--test requires a filename argument"@),
            test => match flag_value(args, "--speed"@) {
                Some(None) => Err("--speed requires a numeric argument"@),
                speed => if speed is Some && speed_error is Some {
                    Err(speed_error->0)
                } else {
                    match test_length_of(args) {
                        Err(m) => Err(m),
                        Ok(length) => match flag_value(args, "--data_directory"@) {
                            Some(None) => Err("--data_directory requires a path argument"@),
                            dir => {
                                let test_file = match test {
                                    Some(Some(t)) => Some(t),
                                    _ => None,
                                };
                                if test_file is Some && !run_client {
                                    Err("--test can only be used with --client mode"@)
                                } else {
                                    Ok(
                                        ArgsOutcomeModel::Run(
                                            CliArgsModel {
                                                run_server,
                                                run_client,
                                                test_file,
                                                speed_text: match speed {
                                                    Some(Some(s)) => Some(s),
                                                    _ => None,
                                                },
                                                test_length: length,
                                                data_directory: match dir {
                                                    Some(Some(d)) => d,
                                                    _ => "./data"@,
                                                },
                                            },
                                        ),
                                    )
                                }
                            },
                        },
                    }
                },
            },
        }
    }
}

/// The position of the first argument that is `s`.
fn find_arg(args: &Vec<String>, s: &str) -> (r: Option<usize>)
    ensures
        match r {
            Some(p) => position_from(texts(args@), s@, 0) == Some(p as int) && p < args@.len(),
            None => position_from(texts(args@), s@, 0) is None,
        },
{
    let ghost a = texts(args@);
    let mut i: usize = 0;
    while i < args.len()
        invariant
            i <= args@.len(),
            a == texts(args@),
            position_from(a, s@, 0) == position_from(a, s@, i as int),
        decreases args@.len() - i,
    {
        assert(a[i as int] == args@[i as int]@);
        if str_eq(args[i].as_str(), s) {
            return Some(i);
        }
        i = i + 1;
    }
    None
}

/// Whether an argument is `s`.
fn arg_present(args: &Vec<String>, s: &str) -> (r: bool)
    ensures
        r == has_arg(texts(args@), s@),
{
    find_arg(args, s).is_some()
}

/// The argument that follows the first `flag`.
pub fn flag_argument(args: &Vec<String>, flag: &str) -> (r: Option<Option<String>>)
    ensures
        match r {
            None => flag_value(texts(args@), flag@) is None,
            Some(None) => flag_value(texts(args@), flag@) == Some(None::<Seq<char>>),
            Some(Some(v)) => flag_value(texts(args@), flag@) == Some(Some(v@)),
        },
{
    match find_arg(args, flag) {
        Some(p) => if p < args.len() - 1 {
            assert(texts(args@)[p + 1] == args@[p + 1]@);
            Some(Some(args[p + 1].clone()))
        } else {
            Some(None)
        },
        None => None,
    }
}

/// Reads the test length.
fn read_test_length(args: &Vec<String>) -> (r: Result<u64, String>)
    ensures
        match r {
            Ok(v) => test_length_of(texts(args@)) == Ok::<u64, Seq<char>>(v),
            Err(m) => test_length_of(texts(args@)) == Err::<u64, Seq<char>>(m@),
        },
{
    match flag_argument(args, "--test_length") {
        None => Ok(1000),
        Some(None) => Err(String::from_str("--test_length requires a numeric argument")),
        Some(Some(t)) => match parse_u64(t.as_str()) {
            None => {
                let mut m = String::from_str("Invalid test_length value: ");
                m.append(t.as_str());
                Err(m)
            },
            Some(v) => if v == 0 {
                Err(String::from_str("Test length must be greater than 0"))
            } else {
                Ok(v)
            },
        },
    }
}

/// Reads the command line; `args` holds the program's name first, as the
/// environment gives it. `speed_error` is the message that the value after
/// `--speed` is refused with, if it is one.
pub fn parse_cli_args(args: &Vec<String>, speed_error: Option<String>) -> (r: Result<ArgsOutcome, String>)
    ensures
        args_result_model(r) == args_outcome(texts(args@), opt_text(speed_error)),
{
    if args.len() == 1 || arg_present(args, "--help") || arg_present(args, "-h") {
        return Ok(ArgsOutcome::Help);
    }
    let server = arg_present(args, "--server");
    let client = arg_present(args, "--client");
    let (run_server, run_client) = if !server && !client {
        (true, true)
    } else {
        (server, client)
    };
    let test = flag_argument(args, "--test");
    let test_file = match test {
        Some(None) => return Err(String::from_str("--test requires a filename argument")),
        Some(Some(t)) => Some(t),
        None => None,
    };
    let speed = flag_argument(args, "--speed");
    let speed_text = match speed {
        Some(None) => return Err(String::from_str("--speed requires a numeric argument")),
        Some(Some(s)) => match speed_error {
            Some(m) => return Err(m),
            None => Some(s),
        },
        None => None,
    };
    let test_length = match read_test_length(args) {
        Ok(v) => v,
        Err(m) => return Err(m),
    };
    let data_directory = match flag_argument(args, "--data_directory") {
        Some(None) => return Err(String::from_str("--data_directory requires a path argument")),
        Some(Some(d)) => d,
        None => String::from_str("./data"),
    };
    if test_file.is_some() && !run_client {
        return Err(String::from_str("--test can only be used with --client mode"));
    }
    Ok(
        ArgsOutcome::Run(
            CliArgs { run_server, run_client, test_file, speed_text, test_length, data_directory },
        ),
    )
}

} // verus!
