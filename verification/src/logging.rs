//! Leveled log lines.
//!
//! A line has the form `[LEVEL] message`. Informational lines and warnings
//! belong on standard output, errors on standard error; the level `NO_LOGS`
//! produces nothing at all.

use vstd::prelude::*;
use vstd::string::StringExecFns;

verus! {

/// The severity of a log line.
#[allow(non_camel_case_types)]
#[derive(Clone, Copy, Debug, PartialEq, Eq, Structural)]
pub enum LogLevel {
    INFO,
    WARNING,
    ERROR,
    NO_LOGS,
}

/// The output stream that a log line is written to.
#[derive(Clone, Copy, Debug, PartialEq, Eq, Structural)]
pub enum Stream {
    Stdout,
    Stderr,
}

impl LogLevel {
    /// The word between the square brackets, where the level writes a line.
    pub open spec fn spec_tag(self) -> Option<Seq<char>> {
        match self {
            LogLevel::INFO => Some("INFO"@),
            LogLevel::WARNING => Some("WARN"@),
            LogLevel::ERROR => Some("ERROR"@),
            LogLevel::NO_LOGS => None,
        }
    }

    /// The stream that lines of the level go to, where it writes a line.
    pub open spec fn spec_stream(self) -> Option<Stream> {
        match self {
            LogLevel::INFO => Some(Stream::Stdout),
            LogLevel::WARNING => Some(Stream::Stdout),
            LogLevel::ERROR => Some(Stream::Stderr),
            LogLevel::NO_LOGS => None,
        }
    }

    /// The line that carries `message` at the level, where it writes a line.
    pub open spec fn spec_line(self, message: Seq<char>) -> Option<Seq<char>> {
        match self.spec_tag() {
            Some(tag) => Some("["@ + tag + "] "@ + message),
            None => None,
        }
    }

    /// The word between the square brackets; `None` for `NO_LOGS`.
    pub fn tag(&self) -> (tag: Option<&'static str>)
        ensures
            tag.deep_view() == self.spec_tag(),
    {
        match self {
            LogLevel::INFO => Some("INFO"),
            LogLevel::WARNING => Some("WARN"),
            LogLevel::ERROR => Some("ERROR"),
            LogLevel::NO_LOGS => None,
        }
    }

    /// The stream that lines of the level go to; `None` for `NO_LOGS`.
    pub fn stream(&self) -> (stream: Option<Stream>)
        ensures
            stream == self.spec_stream(),
    {
        match self {
            LogLevel::INFO => Some(Stream::Stdout),
            LogLevel::WARNING => Some(Stream::Stdout),
            LogLevel::ERROR => Some(Stream::Stderr),
            LogLevel::NO_LOGS => None,
        }
    }

    /// Renders `message` as a line of the level, without a line ending;
    /// `None` for `NO_LOGS`.
    pub fn line(&self, message: &str) -> (line: Option<String>)
        ensures
            line.deep_view() == self.spec_line(message@),
    {
        match self.tag() {
            Some(tag) => {
                let mut line = String::from_str("[");
                line.append(tag);
                line.append("] ");
                line.append(message);
                Some(line)
            },
            None => None,
        }
    }
}

} // verus!
