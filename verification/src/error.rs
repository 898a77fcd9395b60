use vstd::prelude::*;

verus! {

/// The broad category of an error.
#[derive(Clone, Copy, Debug, PartialEq, Eq, Structural)]
pub enum ErrorKind {
    TwitchError,
    IO,
    Config,
    ParseError,
    Unknown,
}

/// The label that introduces an error of the given kind.
pub open spec fn kind_label(kind: ErrorKind) -> Seq<char> {
    match kind {
        ErrorKind::Config => "Config Error"@,
        ErrorKind::IO => "IO Error"@,
        ErrorKind::TwitchError => "Twitch Error"@,
        ErrorKind::ParseError => "Parse Error"@,
        ErrorKind::Unknown => "Unknown Error"@,
    }
}

impl ErrorKind {
    /// The human readable label of this kind.
    pub fn to_str(&self) -> (label: &'static str)
        ensures
            label@ == kind_label(*self),
    {
        match *self {
            ErrorKind::Config => "Config Error",
            ErrorKind::IO => "IO Error",
            ErrorKind::TwitchError => "Twitch Error",
            ErrorKind::ParseError => "Parse Error",
            ErrorKind::Unknown => "Unknown Error",
        }
    }
}

/// An error of the bot: a kind and a free-form description.
#[derive(Clone, Debug, PartialEq, Eq)]
pub struct Error {
    kind: ErrorKind,
    details: String,
}

/// The text `Error::to_string` produces for an error with the given view.
pub open spec fn error_text(e: (ErrorKind, Seq<char>)) -> Seq<char> {
    kind_label(e.0) + ": "@ + e.1
}

impl View for Error {
    type V = (ErrorKind, Seq<char>);

    closed spec fn view(&self) -> (ErrorKind, Seq<char>) {
        (self.kind, self.details@)
    }
}

impl Error {
    /// Builds an error from its kind and description.
    pub fn new(kind: ErrorKind, details: String) -> (e: Error)
        ensures
            e@ == (kind, details@),
    {
        Error { kind, details }
    }

    /// The kind of this error.
    pub fn kind(&self) -> (k: ErrorKind)
        ensures
            k == self@.0,
    {
        self.kind
    }

    /// The description of this error.
    pub fn details(&self) -> (d: &str)
        ensures
            d@ == self@.1,
    {
        self.details.as_str()
    }

    /// The text `"<kind label>: <details>"`.
    pub fn to_string(&self) -> (s: String)
        ensures
            s@ == error_text(self@),
    {
        let label = String::from_str(self.kind.to_str());
        let with_sep = label.concat(": ");
        with_sep.concat(self.details.as_str())
    }
}

/// Builds an error of the given kind whose details are the debug text of a
/// lower-level failure.
pub fn print_error(kind: ErrorKind, debug_text: String) -> (e: Error)
    ensures
        e@ == (kind, debug_text@),
{
    Error::new(kind, debug_text)
}

} // verus!
