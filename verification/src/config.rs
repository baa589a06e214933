//! The configuration file: one `key=value` setting per line, lines that start
//! with `#` as comments. Reading the file and looking at the file system are
//! the caller's part; the outcome says where a look is needed and where to
//! take the file up again afterwards.

use crate::environment::{failure, Applied, Environment, EnvironmentView};
use crate::errors::{EnvironmentParseError, EnvironmentParseErrorView};
use crate::text::{
    decimal, decimal_string, lemma_split_nonempty, lines_of, split, split_text, text_eq, text_lines,
    views,
};
use vstd::prelude::*;
use vstd::string::*;

verus! {

/// What came of reading the configuration file.
#[derive(Debug, Clone, PartialEq, Eq)]
pub enum FileRead {
    /// The file could not be opened.
    Unopened,
    /// The file was opened, but reading it as text failed; the payload is the
    /// failure in words.
    Unreadable(String),
    /// The text of the file.
    Text(String),
}

/// The mathematical content of a [`FileRead`].
pub enum FileReadView {
    Unopened,
    Unreadable(Seq<char>),
    Text(Seq<char>),
}

impl View for FileRead {
    type V = FileReadView;

    open spec fn view(&self) -> FileReadView {
        match self {
            FileRead::Unopened => FileReadView::Unopened,
            FileRead::Unreadable(why) => FileReadView::Unreadable(why@),
            FileRead::Text(text) => FileReadView::Text(text@),
        }
    }
}

/// Where the handling of a configuration file stands.
#[derive(Debug, Clone, PartialEq, Eq)]
pub enum ConfigOutcome {
    /// Every line was handled: the configuration that results.
    Complete(Environment),
    /// The file, or a line of it, was turned down.
    Rejected(EnvironmentParseError),
    /// A line names a content root. The caller looks at `path`, hands the
    /// answer to [`Environment::process_path`] on `env`, and takes the file up
    /// again at line `resume`.
    PathQuery { env: Environment, path: String, resume: usize },
}

/// The mathematical content of a [`ConfigOutcome`].
pub enum ConfigOutcomeView {
    Complete(EnvironmentView),
    Rejected(EnvironmentParseErrorView),
    PathQuery { env: EnvironmentView, path: Seq<char>, resume: nat },
}

impl View for ConfigOutcome {
    type V = ConfigOutcomeView;

    open spec fn view(&self) -> ConfigOutcomeView {
        match self {
            ConfigOutcome::Complete(env) => ConfigOutcomeView::Complete(env@),
            ConfigOutcome::Rejected(error) => ConfigOutcomeView::Rejected(error@),
            ConfigOutcome::PathQuery { env, path, resume } => ConfigOutcomeView::PathQuery {
                env: env@,
                path: path@,
                resume: *resume as nat,
            },
        }
    }
}

/// The settings that a configuration file may hold.
#[derive(Debug, Clone, Copy, PartialEq, Eq, Structural)]
pub enum ConfigKey {
    Color,
    Time,
    Path,
    Address,
    Port,
    Timeout,
}

/// `text` without the white space at its two ends, as `str::trim` gives it.
pub uninterp spec fn trimmed(text: Seq<char>) -> Seq<char>;

/// `text` without leading and trailing white space, cut by `str::trim`. The
/// contract only names the result: what counts as white space is the standard
/// library's Unicode data, and the same text always gives the same result.
#[verifier::external_body]
fn trim_text(text: &str) -> (out: &str)
    ensures
        out@ == trimmed(text@),
{
    text.trim()
}

/// The setting that a key names, once it is trimmed.
pub open spec fn key_kind(key: Seq<char>) -> Option<ConfigKey> {
    if key == "color"@ || key == "colour"@ {
        Some(ConfigKey::Color)
    } else if key == "time"@ {
        Some(ConfigKey::Time)
    } else if key == "path"@ {
        Some(ConfigKey::Path)
    } else if key == "address"@ {
        Some(ConfigKey::Address)
    } else if key == "port"@ {
        Some(ConfigKey::Port)
    } else if key == "timeout"@ {
        Some(ConfigKey::Timeout)
    } else {
        None
    }
}

/// The setting that a trimmed key names.
pub fn config_key(key: &str) -> (kind: Option<ConfigKey>)
    ensures
        kind == key_kind(key@),
{
    if text_eq(key, "color") || text_eq(key, "colour") {
        Some(ConfigKey::Color)
    } else if text_eq(key, "time") {
        Some(ConfigKey::Time)
    } else if text_eq(key, "path") {
        Some(ConfigKey::Path)
    } else if text_eq(key, "address") {
        Some(ConfigKey::Address)
    } else if text_eq(key, "port") {
        Some(ConfigKey::Port)
    } else if text_eq(key, "timeout") {
        Some(ConfigKey::Timeout)
    } else {
        None
    }
}

/// The fields from `from` on, one after the other with nothing between them.
pub open spec fn glued(fields: Seq<Seq<char>>, from: int) -> Seq<char>
    decreases fields.len() - from,
{
    if from < 0 || from >= fields.len() {
        Seq::empty()
    } else {
        fields[from] + glued(fields, from + 1)
    }
}

/// The fields from the second on, glued together.
fn glue_value(fields: &Vec<String>) -> (value: String)
    requires
        fields@.len() >= 1,
    ensures
        value@ == glued(views(fields@), 1),
{
    let mut value = String::new();
    let mut i: usize = fields.len();
    let ghost all = views(fields@);
    while i > 1
        invariant
            1 <= i <= fields.len(),
            all == views(fields@),
            value@ == glued(all, i as int),
        decreases i,
    {
        i -= 1;
        let mut front = fields[i].clone();
        front.append(value.as_str());
        value = front;
    }
    value
}

/// Whether a line is a comment.
pub open spec fn is_comment(line: Seq<char>) -> bool {
    line.len() > 0 && line[0] == '#'
}

/// The error for a line that holds no `=`.
pub open spec fn bad_line(number: nat) -> EnvironmentParseErrorView {
    EnvironmentParseErrorView::ConfigFileError("Incorrect formatting on line "@ + decimal(number))
}

/// What a setting of a configuration file does to a configuration. The
/// content root is not among them: it needs a look at the file system first.
pub open spec fn setting_applied(env: EnvironmentView, key: ConfigKey, value: Seq<char>) -> Applied {
    match key {
        ConfigKey::Color => env.color_applied(Some(value)),
        ConfigKey::Time => env.time_applied(value),
        ConfigKey::Address => env.address_applied(value),
        ConfigKey::Port => env.port_applied(value),
        ConfigKey::Timeout => env.timeout_applied(value),
        ConfigKey::Path => (env, None),
    }
}

/// The outcome of handling the lines from `at` on, in order. A comment is
/// skipped. Any other line is split at every `=`: the first field, trimmed,
/// is the key, and the fields after it, glued together, are the value as it
/// stands. A line without `=` is badly formatted, and an unknown key is
/// invalid with the key as it was written. The first line that is turned down
/// ends the handling; a `path` line interrupts it.
pub open spec fn lines_outcome(env: EnvironmentView, lines: Seq<Seq<char>>, at: int) -> ConfigOutcomeView
    decreases lines.len() - at,
{
    if at < 0 || at >= lines.len() {
        ConfigOutcomeView::Complete(env)
    } else if is_comment(lines[at]) {
        lines_outcome(env, lines, at + 1)
    } else {
        let fields = split(lines[at], '=');
        if fields.len() < 2 {
            ConfigOutcomeView::Rejected(bad_line((at + 1) as nat))
        } else {
            match key_kind(trimmed(fields[0])) {
                None => ConfigOutcomeView::Rejected(
                    EnvironmentParseErrorView::InvalidConfigKey(fields[0]),
                ),
                Some(ConfigKey::Path) => ConfigOutcomeView::PathQuery {
                    env,
                    path: glued(fields, 1),
                    resume: (at + 1) as nat,
                },
                Some(key) => {
                    let (next, error) = setting_applied(env, key, glued(fields, 1));
                    match error {
                        Some(error) => ConfigOutcomeView::Rejected(error),
                        None => lines_outcome(next, lines, at + 1),
                    }
                },
            }
        }
    }
}

/// The outcome of handling a configuration file from line `start` on (the
/// first line is line 0): a file that could not be opened or read is turned
/// down with the reason, a text is handled line by line.
pub open spec fn config_outcome(
    env: EnvironmentView,
    filename: Seq<char>,
    file: FileReadView,
    start: int,
) -> ConfigOutcomeView {
    match file {
        FileReadView::Unopened => ConfigOutcomeView::Rejected(
            EnvironmentParseErrorView::ConfigFileError("Could not open file: "@ + filename),
        ),
        FileReadView::Unreadable(why) => ConfigOutcomeView::Rejected(
            EnvironmentParseErrorView::ConfigFileError("Error reading file: "@ + why),
        ),
        FileReadView::Text(text) => lines_outcome(env, lines_of(text), start),
    }
}

impl Environment {
    /// Handles one setting that needs no look at the file system.
    fn process_setting(&mut self, key: ConfigKey, value: String) -> (outcome: Result<
        (),
        EnvironmentParseError,
    >)
        requires
            key != ConfigKey::Path,
        ensures
            (final(self)@, failure(outcome)) == setting_applied(
                old(self)@,
                key,
                value@,
            ),
    {
        match key {
            ConfigKey::Color => self.process_color(Some(value)),
            ConfigKey::Time => self.process_time(value),
            ConfigKey::Address => self.process_address(value),
            ConfigKey::Port => self.process_port(value),
            ConfigKey::Timeout => self.process_timeout(value),
            ConfigKey::Path => Ok(()),
        }
    }

    /// Handles the configuration file `filename`, whose reading gave `file`,
    /// from line `start` on, starting from the configuration `default`.
    /// Settings in the file replace what `default` holds.
    #[verifier::loop_isolation(false)]
    pub fn from_config(default: Environment, filename: &str, file: &FileRead, start: usize) -> (outcome:
        ConfigOutcome)
        ensures
            outcome@ == config_outcome(default@, filename@, file@, start as int),
    {
        let text = match file {
            FileRead::Unopened => {
                let mut why = "Could not open file: ".to_owned();
                why.append(filename);
                return ConfigOutcome::Rejected(EnvironmentParseError::ConfigFileError(why));
            },
            FileRead::Unreadable(reason) => {
                let mut why = "Error reading file: ".to_owned();
                why.append(reason.as_str());
                return ConfigOutcome::Rejected(EnvironmentParseError::ConfigFileError(why));
            },
            FileRead::Text(text) => text,
        };
        let lines = text_lines(text.as_str());
        let ghost all = views(lines@);
        let mut env = default;
        let mut at: usize = start;
        while at < lines.len()
            invariant
                all == views(lines@),
                all.len() == lines@.len(),
                lines_outcome(env@, all, at as int) == lines_outcome(default@, all, start as int),
            decreases lines.len() - at,
        {
            let line = lines[at].as_str();
            if line.unicode_len() > 0 && line.get_char(0) == '#' {
                at += 1;
                continue ;
            }
            let fields = split_text(line, '=');
            proof {
                lemma_split_nonempty(line@, '=');
            }
            if fields.len() < 2 {
                let mut why = "Incorrect formatting on line ".to_owned();
                why.append(decimal_string((at + 1) as u64).as_str());
                return ConfigOutcome::Rejected(EnvironmentParseError::ConfigFileError(why));
            }
            let value = glue_value(&fields);
            match config_key(trim_text(fields[0].as_str())) {
                None => {
                    return ConfigOutcome::Rejected(
                        EnvironmentParseError::InvalidConfigKey(fields[0].clone()),
                    );
                },
                Some(ConfigKey::Path) => {
                    return ConfigOutcome::PathQuery { env, path: value, resume: at + 1 };
                },
                Some(key) => {
                    match env.process_setting(key, value) {
                        Ok(()) => {},
                        Err(error) => {
                            return ConfigOutcome::Rejected(error);
                        },
                    }
                },
            }
            at += 1;
        }
        ConfigOutcome::Complete(env)
    }
}

} // verus!
