//! The server's configuration: where it listens, what it serves, how it logs
//! and how long it waits on shutdown.

use crate::errors::{EnvironmentParseError, EnvironmentParseErrorView};
use crate::text::{
    bounded_literal, decimal, decimal_string, lemma_split_nonempty, parse_bounded, split,
    split_text, text_eq, views,
};
use vstd::prelude::*;
use vstd::string::*;

verus! {

/// The configuration of one server run. It is built once at startup and only
/// read afterwards.
#[derive(Debug, Clone, PartialEq, Eq)]
pub struct Environment {
    /// Whether log lines are coloured by level.
    pub color: bool,
    /// The date-time pattern that starts each log line; empty for none.
    pub time: String,
    /// The directory that holds the documents to serve.
    pub source_dir: String,
    /// The IPv4 address to bind, one byte per part.
    pub address: [u8; 4],
    /// The port to bind.
    pub port: u16,
    /// How many milliseconds a shutdown waits for work in flight.
    pub timeout: u64,
}

/// The mathematical content of an [`Environment`].
pub struct EnvironmentView {
    pub color: bool,
    pub time: Seq<char>,
    pub source_dir: Seq<char>,
    pub address: Seq<u8>,
    pub port: u16,
    pub timeout: u64,
}

impl View for Environment {
    type V = EnvironmentView;

    open spec fn view(&self) -> EnvironmentView {
        EnvironmentView {
            color: self.color,
            time: self.time@,
            source_dir: self.source_dir@,
            address: self.address@,
            port: self.port,
            timeout: self.timeout,
        }
    }
}

impl EnvironmentView {
    /// The configuration of a server that was told nothing: plain logs without
    /// time, `./html/` served on 127.0.0.1:6969, five seconds of grace.
    pub open spec fn initial() -> EnvironmentView {
        EnvironmentView {
            color: false,
            time: Seq::empty(),
            source_dir: "./html/"@,
            address: seq![127u8, 0u8, 0u8, 1u8],
            port: 6969,
            timeout: 5000,
        }
    }
}

impl Default for Environment {
    fn default() -> (env: Environment)
        ensures
            env@ == EnvironmentView::initial(),
    {
        let env = Environment {
            color: false,
            time: String::new(),
            source_dir: "./html/".to_owned(),
            address: [127, 0, 0, 1],
            port: 6969,
            timeout: 5000,
        };
        env
    }
}

/// What a look at the file system says of a path.
#[derive(Debug, Clone, Copy, PartialEq, Eq, Structural)]
pub enum PathStatus {
    /// Nothing can be found at the path.
    Missing,
    /// Something other than a directory is at the path.
    NotDirectory,
    /// A directory.
    Directory,
}

/// A configuration after one setting was handled, and the error where the
/// setting was turned down.
pub type Applied = (EnvironmentView, Option<EnvironmentParseErrorView>);

/// The error of an outcome, if it is one.
pub open spec fn failure(outcome: Result<(), EnvironmentParseError>) -> Option<
    EnvironmentParseErrorView,
> {
    match outcome {
        Ok(_) => None,
        Err(error) => Some(error@),
    }
}

/// `text` as the lower-case form that `str::to_lowercase` gives it.
pub uninterp spec fn lowercase(text: Seq<char>) -> Seq<char>;

/// The lower-case form of `text`, made by `str::to_lowercase`. The contract
/// only names the result: which characters change is the standard library's
/// Unicode data, and the same text always gives the same result.
#[verifier::external_body]
fn lowered(text: &str) -> (out: String)
    ensures
        out@ == lowercase(text@),
{
    text.to_lowercase()
}

/// What a lower-case word says of a switch: `true` and `false` are the two
/// settings, anything else is none.
pub open spec fn switch_value(word: Seq<char>) -> Option<bool> {
    if word == "true"@ {
        Some(true)
    } else if word == "false"@ {
        Some(false)
    } else {
        None
    }
}

/// Reads a switch from a word that is already in lower case.
pub fn read_switch(word: &str) -> (setting: Option<bool>)
    ensures
        setting == switch_value(word@),
{
    if text_eq(word, "true") {
        Some(true)
    } else if text_eq(word, "false") {
        Some(false)
    } else {
        None
    }
}

/// The address after the parts from `from` on were written into it, one byte
/// per part and from left to right, and whether all of them were numbers up to
/// 255. Writing stops at the first part that is none; the bytes written before
/// it stay.
pub open spec fn write_octets(address: Seq<u8>, parts: Seq<Seq<char>>, from: int) -> (Seq<u8>, bool)
    decreases parts.len() - from,
{
    if from < 0 || from >= parts.len() {
        (address, true)
    } else {
        match bounded_literal(parts[from], 255) {
            Some(v) => write_octets(address.update(from, v as u8), parts, from + 1),
            None => (address, false),
        }
    }
}

impl EnvironmentView {
    /// The port set from `text`: a number up to 65535, or `InvalidPort`.
    pub open spec fn port_applied(self, text: Seq<char>) -> Applied {
        match bounded_literal(text, 65535) {
            Some(v) => (EnvironmentView { port: v as u16, ..self }, None),
            None => (self, Some(EnvironmentParseErrorView::InvalidPort(text))),
        }
    }

    /// The grace period set from `text`: a number of milliseconds that fits in
    /// 64 bits, or `InvalidTimeout`.
    pub open spec fn timeout_applied(self, text: Seq<char>) -> Applied {
        match bounded_literal(text, u64::MAX as nat) {
            Some(v) => (EnvironmentView { timeout: v as u64, ..self }, None),
            None => (self, Some(EnvironmentParseErrorView::InvalidTimeout(text))),
        }
    }

    /// The time pattern set to `text`, whatever it holds.
    pub open spec fn time_applied(self, text: Seq<char>) -> Applied {
        (EnvironmentView { time: text, ..self }, None)
    }

    /// The colour switch set from an optional word: on without a word, else as
    /// the word says in any letter case, or `InvalidOption` for `color` with
    /// the word as it was given.
    pub open spec fn color_applied(self, option: Option<Seq<char>>) -> Applied {
        match option {
            None => (EnvironmentView { color: true, ..self }, None),
            Some(word) => match switch_value(lowercase(word)) {
                Some(setting) => (EnvironmentView { color: setting, ..self }, None),
                None => (self, Some(EnvironmentParseErrorView::InvalidOption("color"@, word))),
            },
        }
    }

    /// The content root set to `path` where a directory is there; `InvalidPath`
    /// where nothing is, `NotADir` where something else is.
    pub open spec fn path_applied(self, path: Seq<char>, status: PathStatus) -> Applied {
        match status {
            PathStatus::Missing => (self, Some(EnvironmentParseErrorView::InvalidPath(path))),
            PathStatus::NotDirectory => (self, Some(EnvironmentParseErrorView::NotADir(path))),
            PathStatus::Directory => (EnvironmentView { source_dir: path, ..self }, None),
        }
    }

    /// The address, and the port where one follows a colon, set from `text`:
    /// `a.b.c.d` or `a.b.c.d:port`. More than one colon is `InvalidAddr`. The
    /// port is handled first, and its error is the port's own. Then anything
    /// but four dotted parts, or a part that is no number up to 255, is
    /// `InvalidAddr` with the whole text. What was set before the error stays
    /// set: the port, and the address bytes left of the failing part.
    pub open spec fn address_applied(self, text: Seq<char>) -> Applied {
        let halves = split(text, ':');
        if halves.len() > 2 {
            (self, Some(EnvironmentParseErrorView::InvalidAddr(text)))
        } else {
            let with_port = if halves.len() == 2 {
                self.port_applied(halves[1])
            } else {
                (self, None)
            };
            if with_port.1 is Some {
                with_port
            } else {
                let parts = split(halves[0], '.');
                if parts.len() != 4 {
                    (with_port.0, Some(EnvironmentParseErrorView::InvalidAddr(text)))
                } else {
                    let (address, complete) = write_octets(with_port.0.address, parts, 0);
                    (
                        EnvironmentView { address, ..with_port.0 },
                        if complete {
                            None
                        } else {
                            Some(EnvironmentParseErrorView::InvalidAddr(text))
                        },
                    )
                }
            }
        }
    }
}

impl Environment {
    /// Sets the port from `port`.
    pub fn process_port(&mut self, port: String) -> (outcome: Result<(), EnvironmentParseError>)
        ensures
            (final(self)@, failure(outcome)) == old(self)@.port_applied(port@),
    {
        match parse_bounded(port.as_str(), 65535) {
            Some(v) => {
                self.port = v as u16;
                Ok(())
            },
            None => Err(EnvironmentParseError::InvalidPort(port)),
        }
    }

    /// Sets the address, and the port where one is given, from `input`.
    #[verifier::loop_isolation(false)]
    pub fn process_address(&mut self, input: String) -> (outcome: Result<
        (),
        EnvironmentParseError,
    >)
        ensures
            (final(self)@, failure(outcome)) == old(self)@.address_applied(input@),
    {
        let halves = split_text(input.as_str(), ':');
        proof {
            lemma_split_nonempty(input@, ':');
        }
        if halves.len() > 2 {
            return Err(EnvironmentParseError::InvalidAddr(input));
        }
        if halves.len() == 2 {
            match self.process_port(halves[1].clone()) {
                Ok(()) => {},
                Err(error) => {
                    return Err(error);
                },
            }
        }
        let ghost with_port = self@;
        let parts = split_text(halves[0].as_str(), '.');
        if parts.len() != 4 {
            return Err(EnvironmentParseError::InvalidAddr(input));
        }
        let mut count: usize = 0;
        while count < 4
            invariant
                count <= 4,
                parts@.len() == 4,
                self@ == (EnvironmentView { address: self.address@, ..with_port }),
                write_octets(self.address@, views(parts@), count as int) == write_octets(
                    with_port.address,
                    views(parts@),
                    0,
                ),
            decreases 4 - count,
        {
            match parse_bounded(parts[count].as_str(), 255) {
                Some(v) => {
                    self.address[count] = v as u8;
                    count += 1;
                },
                None => {
                    return Err(EnvironmentParseError::InvalidAddr(input));
                },
            }
        }
        Ok(())
    }

    /// Sets the content root to `path`, given what the file system says of it.
    pub fn process_path(&mut self, path: String, status: PathStatus) -> (outcome: Result<
        (),
        EnvironmentParseError,
    >)
        ensures
            (final(self)@, failure(outcome)) == old(self)@.path_applied(path@, status),
    {
        match status {
            PathStatus::Missing => Err(EnvironmentParseError::InvalidPath(path)),
            PathStatus::NotDirectory => Err(EnvironmentParseError::NotADir(path)),
            PathStatus::Directory => {
                self.source_dir = path;
                Ok(())
            },
        }
    }

    /// Sets the colour switch from an optional word.
    pub fn process_color(&mut self, option: Option<String>) -> (outcome: Result<
        (),
        EnvironmentParseError,
    >)
        ensures
            (final(self)@, failure(outcome)) == old(self)@.color_applied(
                match option {
                    Some(word) => Some(word@),
                    None => None,
                },
            ),
    {
        let setting = match option {
            Some(word) => match read_switch(lowered(word.as_str()).as_str()) {
                Some(setting) => setting,
                None => {
                    return Err(EnvironmentParseError::InvalidOption("color".to_owned(), word));
                },
            },
            None => true,
        };
        self.color = setting;
        Ok(())
    }

    /// Sets the grace period from `timeout`.
    pub fn process_timeout(&mut self, timeout: String) -> (outcome: Result<
        (),
        EnvironmentParseError,
    >)
        ensures
            (final(self)@, failure(outcome)) == old(self)@.timeout_applied(timeout@),
    {
        match parse_bounded(timeout.as_str(), u64::MAX) {
            Some(v) => {
                self.timeout = v;
                Ok(())
            },
            None => Err(EnvironmentParseError::InvalidTimeout(timeout)),
        }
    }

    /// Sets the time pattern to `time`.
    pub fn process_time(&mut self, time: String) -> (outcome: Result<(), EnvironmentParseError>)
        ensures
            (final(self)@, failure(outcome)) == old(self)@.time_applied(time@),
    {
        self.time = time;
        Ok(())
    }
}

/// `text` as Rust's `Debug` formatting shows a string: in double quotes, with
/// escapes for what cannot stand there as it is.
pub uninterp spec fn debug_form(text: Seq<char>) -> Seq<char>;

/// The `Debug` form of `text`, made by `format!("{:?}", ..)`. The contract
/// only names the result: which characters are escaped is the standard
/// library's Unicode data, and the same text always gives the same result.
#[verifier::external_body]
fn quoted(text: &str) -> (out: String)
    ensures
        out@ == debug_form(text@),
{
    format!("{:?}", text)
}

/// How a switch is shown.
pub open spec fn switch_text(setting: bool) -> Seq<char> {
    if setting {
        "true"@
    } else {
        "false"@
    }
}

/// How an address is shown: its bytes in decimal, in square brackets, with a
/// comma and a space between them.
pub open spec fn address_text(address: Seq<u8>) -> Seq<char> {
    "["@ + decimal(address[0] as nat) + ", "@ + decimal(address[1] as nat) + ", "@ + decimal(
        address[2] as nat,
    ) + ", "@ + decimal(address[3] as nat) + "]"@
}

impl EnvironmentView {
    /// The configuration as the startup log shows it: one setting per line,
    /// each line indented by a tab and ended by a line feed.
    pub open spec fn description(self) -> Seq<char> {
        "\tcolor:\t\t"@ + switch_text(self.color) + "\n"@ + "\ttime:\t\t"@ + self.time + "\n"@
            + "\tsource_dir:\t"@ + debug_form(self.source_dir) + "\n"@ + "\taddress:\t"@
            + address_text(self.address) + "\n"@ + "\tport:\t\t"@ + decimal(self.port as nat)
            + "\n"@ + "\ttimeout:\t"@ + decimal(self.timeout as nat) + "\n"@
    }
}

impl Environment {
    /// The configuration as the startup log shows it.
    pub fn describe(&self) -> (out: String)
        ensures
            out@ == self@.description(),
    {
        let mut out = "\tcolor:\t\t".to_owned();
        out.append(
            if self.color {
                "true"
            } else {
                "false"
            },
        );
        out.append("\n");
        out.append("\ttime:\t\t");
        out.append(self.time.as_str());
        out.append("\n");
        out.append("\tsource_dir:\t");
        out.append(quoted(self.source_dir.as_str()).as_str());
        out.append("\n");
        out.append("\taddress:\t");
        let mut address = "[".to_owned();
        address.append(decimal_string(self.address[0] as u64).as_str());
        address.append(", ");
        address.append(decimal_string(self.address[1] as u64).as_str());
        address.append(", ");
        address.append(decimal_string(self.address[2] as u64).as_str());
        address.append(", ");
        address.append(decimal_string(self.address[3] as u64).as_str());
        address.append("]");
        out.append(address.as_str());
        out.append("\n");
        out.append("\tport:\t\t");
        out.append(decimal_string(self.port as u64).as_str());
        out.append("\n");
        out.append("\ttimeout:\t");
        out.append(decimal_string(self.timeout).as_str());
        out.append("\n");
        out
    }
}

} // verus!
