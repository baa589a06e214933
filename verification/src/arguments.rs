//! The command line: options and their values, handled from left to right.
//! Looking at the file system and reading files are the caller's part; the
//! outcome says where one of them is needed and where to take the arguments
//! up again afterwards.

use crate::environment::{failure, Applied, Environment, EnvironmentView};
use crate::errors::{EnvironmentParseError, EnvironmentParseErrorView};
use crate::text::{text_eq, views};
use vstd::prelude::*;
use vstd::string::*;

verus! {

/// What `--help` shows.
pub const USAGE: &'static str = "Usage:
\tsert [options]

LOGGER OPTIONS
\t-c, --color, --colour\tuses colors when formatting different log output
\t-t, --time\t\tspecifies the date-time formatting to be used. leave blank for no date-time information. see `man time` for valid formatting

SERVER OPTIONS
\t-p, --path\t\tspecifies the directory to use to look for the html files
\t-a, --address\t\tspecifies the address to use to host the server
\t-T, --timeout\t\tspecifies the amount of milliseconds the program should wait for the listener thread before terminating
\t-P, --port\t\tspecifies the port to listen on
\t-C --config-file\tuse a configuration file for the server. The config file may overwrite previously set command line options. On the other hand, you can overwrite config file options if you set them after giving the config file.
";

/// The options of the command line.
#[derive(Debug, Clone, Copy, PartialEq, Eq, Structural)]
pub enum CommandOption {
    /// `-c`, `--color`, `--colour`: colour the log; takes the next argument,
    /// if there is one, as `true` or `false`.
    Color,
    /// `-t`, `--time`: the date-time pattern of the log.
    Time,
    /// `-p`, `--path`: the content root.
    Path,
    /// `-a`, `--address`: the address, with or without a port.
    Address,
    /// `-P`, `--port`: the port.
    Port,
    /// `-T`, `--timeout`: the grace period in milliseconds.
    Timeout,
    /// `-h`, `--help`: show the usage and stop.
    Help,
    /// `-C`, `--config-file`: take settings from a file.
    ConfigFile,
}

/// Where the handling of the command line stands.
#[derive(Debug, Clone, PartialEq, Eq)]
pub enum ArgsOutcome {
    /// Every argument was handled: the configuration that results.
    Complete(Environment),
    /// An argument was turned down.
    Rejected(EnvironmentParseError),
    /// The usage was asked for: the caller shows it and ends the process
    /// successfully.
    Help,
    /// A content root was given. The caller looks at `path`, hands the answer
    /// to [`Environment::process_path`] on `env`, and takes the arguments up
    /// again at `resume`.
    PathQuery { env: Environment, path: String, resume: usize },
    /// A configuration file was given. The caller reads `filename`, handles it
    /// with [`Environment::from_config`] from `env`, and takes the arguments up
    /// again at `resume` with the configuration that results.
    ConfigQuery { env: Environment, filename: String, resume: usize },
}

/// The mathematical content of an [`ArgsOutcome`].
pub enum ArgsOutcomeView {
    Complete(EnvironmentView),
    Rejected(EnvironmentParseErrorView),
    Help,
    PathQuery { env: EnvironmentView, path: Seq<char>, resume: nat },
    ConfigQuery { env: EnvironmentView, filename: Seq<char>, resume: nat },
}

impl View for ArgsOutcome {
    type V = ArgsOutcomeView;

    open spec fn view(&self) -> ArgsOutcomeView {
        match self {
            ArgsOutcome::Complete(env) => ArgsOutcomeView::Complete(env@),
            ArgsOutcome::Rejected(error) => ArgsOutcomeView::Rejected(error@),
            ArgsOutcome::Help => ArgsOutcomeView::Help,
            ArgsOutcome::PathQuery { env, path, resume } => ArgsOutcomeView::PathQuery {
                env: env@,
                path: path@,
                resume: *resume as nat,
            },
            ArgsOutcome::ConfigQuery { env, filename, resume } => ArgsOutcomeView::ConfigQuery {
                env: env@,
                filename: filename@,
                resume: *resume as nat,
            },
        }
    }
}

/// The option that an argument names.
pub open spec fn option_kind(word: Seq<char>) -> Option<CommandOption> {
    if word == "-c"@ || word == "--color"@ || word == "--colour"@ {
        Some(CommandOption::Color)
    } else if word == "-t"@ || word == "--time"@ {
        Some(CommandOption::Time)
    } else if word == "-p"@ || word == "--path"@ {
        Some(CommandOption::Path)
    } else if word == "-a"@ || word == "--address"@ {
        Some(CommandOption::Address)
    } else if word == "-P"@ || word == "--port"@ {
        Some(CommandOption::Port)
    } else if word == "-T"@ || word == "--timeout"@ {
        Some(CommandOption::Timeout)
    } else if word == "-h"@ || word == "--help"@ {
        Some(CommandOption::Help)
    } else if word == "-C"@ || word == "--config-file"@ {
        Some(CommandOption::ConfigFile)
    } else {
        None
    }
}

/// The option that `word` names.
pub fn command_option(word: &str) -> (kind: Option<CommandOption>)
    ensures
        kind == option_kind(word@),
{
    if text_eq(word, "-c") || text_eq(word, "--color") || text_eq(word, "--colour") {
        Some(CommandOption::Color)
    } else if text_eq(word, "-t") || text_eq(word, "--time") {
        Some(CommandOption::Time)
    } else if text_eq(word, "-p") || text_eq(word, "--path") {
        Some(CommandOption::Path)
    } else if text_eq(word, "-a") || text_eq(word, "--address") {
        Some(CommandOption::Address)
    } else if text_eq(word, "-P") || text_eq(word, "--port") {
        Some(CommandOption::Port)
    } else if text_eq(word, "-T") || text_eq(word, "--timeout") {
        Some(CommandOption::Timeout)
    } else if text_eq(word, "-h") || text_eq(word, "--help") {
        Some(CommandOption::Help)
    } else if text_eq(word, "-C") || text_eq(word, "--config-file") {
        Some(CommandOption::ConfigFile)
    } else {
        None
    }
}

/// What an option with its value does to a configuration, for the four
/// options that need a value and nothing from outside.
pub open spec fn value_applied(env: EnvironmentView, option: CommandOption, value: Seq<char>) -> Applied {
    match option {
        CommandOption::Time => env.time_applied(value),
        CommandOption::Address => env.address_applied(value),
        CommandOption::Port => env.port_applied(value),
        CommandOption::Timeout => env.timeout_applied(value),
        _ => (env, None),
    }
}

/// The outcome of handling the arguments from `at` on, in order. Every option
/// takes the argument after it as its value. The colour option may stand
/// last, and then switches colours on; a configuration file option that
/// stands last is passed over; any other option that stands last lacks its
/// value. An argument that is no option is invalid. The first argument that
/// is turned down ends the handling; a content root, a configuration file and
/// the request for help interrupt it.
pub open spec fn args_outcome(env: EnvironmentView, args: Seq<Seq<char>>, at: int) -> ArgsOutcomeView
    decreases args.len() - at,
{
    if at < 0 || at >= args.len() {
        ArgsOutcomeView::Complete(env)
    } else {
        let word = args[at];
        let value = if at + 1 < args.len() {
            Some(args[at + 1])
        } else {
            None
        };
        match option_kind(word) {
            None => ArgsOutcomeView::Rejected(EnvironmentParseErrorView::InvalidArg(word)),
            Some(CommandOption::Help) => ArgsOutcomeView::Help,
            Some(CommandOption::Color) => {
                let (next, error) = env.color_applied(value);
                match error {
                    Some(error) => ArgsOutcomeView::Rejected(error),
                    None => args_outcome(
                        next,
                        args,
                        if value is Some {
                            at + 2
                        } else {
                            at + 1
                        },
                    ),
                }
            },
            Some(CommandOption::ConfigFile) => match value {
                None => ArgsOutcomeView::Complete(env),
                Some(filename) => ArgsOutcomeView::ConfigQuery {
                    env,
                    filename,
                    resume: (at + 2) as nat,
                },
            },
            Some(CommandOption::Path) => match value {
                None => ArgsOutcomeView::Rejected(EnvironmentParseErrorView::NullArg(word)),
                Some(path) => ArgsOutcomeView::PathQuery { env, path, resume: (at + 2) as nat },
            },
            Some(option) => match value {
                None => ArgsOutcomeView::Rejected(EnvironmentParseErrorView::NullArg(word)),
                Some(value) => {
                    let (next, error) = value_applied(env, option, value);
                    match error {
                        Some(error) => ArgsOutcomeView::Rejected(error),
                        None => args_outcome(next, args, at + 2),
                    }
                },
            },
        }
    }
}

impl Environment {
    /// Handles an option that needs a value and nothing from outside.
    fn process_value(&mut self, option: CommandOption, value: String) -> (outcome: Result<
        (),
        EnvironmentParseError,
    >)
        ensures
            (final(self)@, failure(outcome)) == value_applied(
                old(self)@,
                option,
                value@,
            ),
    {
        match option {
            CommandOption::Time => self.process_time(value),
            CommandOption::Address => self.process_address(value),
            CommandOption::Port => self.process_port(value),
            CommandOption::Timeout => self.process_timeout(value),
            _ => Ok(()),
        }
    }

    /// Handles the arguments of the command line from position `start` on,
    /// starting from the configuration `default`. `args` holds the options and
    /// values only, without the program's name.
    #[verifier::loop_isolation(false)]
    pub fn from_args(default: Environment, args: &Vec<String>, start: usize) -> (outcome: ArgsOutcome)
        ensures
            outcome@ == args_outcome(default@, views(args@), start as int),
    {
        let ghost all = views(args@);
        let mut env = default;
        let mut at: usize = start;
        while at < args.len()
            invariant
                args_outcome(env@, all, at as int) == args_outcome(default@, all, start as int),
            decreases args.len() - at,
        {
            let word = args[at].as_str();
            let value = if at + 1 < args.len() {
                Some(args[at + 1].clone())
            } else {
                None
            };
            match command_option(word) {
                None => {
                    return ArgsOutcome::Rejected(
                        EnvironmentParseError::InvalidArg(args[at].clone()),
                    );
                },
                Some(CommandOption::Help) => {
                    return ArgsOutcome::Help;
                },
                Some(CommandOption::Color) => {
                    match env.process_color(value) {
                        Ok(()) => {},
                        Err(error) => {
                            return ArgsOutcome::Rejected(error);
                        },
                    }
                },
                Some(CommandOption::ConfigFile) => {
                    match value {
                        None => {
                            return ArgsOutcome::Complete(env);
                        },
                        Some(filename) => {
                            return ArgsOutcome::ConfigQuery { env, filename, resume: at + 2 };
                        },
                    }
                },
                Some(CommandOption::Path) => {
                    match value {
                        None => {
                            return ArgsOutcome::Rejected(
                                EnvironmentParseError::NullArg(args[at].clone()),
                            );
                        },
                        Some(path) => {
                            return ArgsOutcome::PathQuery { env, path, resume: at + 2 };
                        },
                    }
                },
                Some(option) => {
                    match value {
                        None => {
                            return ArgsOutcome::Rejected(
                                EnvironmentParseError::NullArg(args[at].clone()),
                            );
                        },
                        Some(value) => {
                            match env.process_value(option, value) {
                                Ok(()) => {},
                                Err(error) => {
                                    return ArgsOutcome::Rejected(error);
                                },
                            }
                        },
                    }
                },
            }
            if at + 1 < args.len() {
                at += 2;
            } else {
                at = args.len();
            }
        }
        ArgsOutcome::Complete(env)
    }
}

} // verus!
