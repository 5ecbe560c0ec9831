use vstd::prelude::*;
use vstd::std_specs::convert::{FromSpec, FromSpecImpl};
use vstd::string::to_string_from_display_ensures;

verus! {

/// Errors returned by the connection handle.
///
/// Most database errors surface as [`Error::Rusqlite`]. The other variants report
/// lifecycle events of the connection itself rather than SQL-level failures.
#[derive(Debug)]
pub enum Error {
    /// A rusqlite-level error (SQL syntax, constraint violation, I/O, ...).
    Rusqlite(rusqlite::Error),
    /// The background thread has already stopped: the channel is disconnected.
    ConnectionClosed,
    /// `rusqlite::Connection::close` returned an error during explicit shutdown.
    Close(rusqlite::Error),
    /// An arbitrary error message produced inside a call closure.
    Other(String),
}

/// The fixed text of [`Error::ConnectionClosed`].
pub open spec fn connection_closed_text() -> Seq<char> {
    "connection is already closed"@
}

/// The prefix of the text of [`Error::Rusqlite`].
pub open spec fn rusqlite_prefix() -> Seq<char> {
    "rusqlite error: "@
}

/// The prefix of the text of [`Error::Close`].
pub open spec fn close_prefix() -> Seq<char> {
    "error closing connection: "@
}

impl Error {
    /// The underlying rusqlite error, for the variants that wrap one.
    pub open spec fn spec_source(&self) -> Option<rusqlite::Error> {
        match self {
            Error::Rusqlite(e) => Some(*e),
            Error::Close(e) => Some(*e),
            Error::ConnectionClosed => None,
            Error::Other(_) => None,
        }
    }

    /// The underlying rusqlite error, if this error wraps one
    /// (`Rusqlite` and `Close`), else `None`.
    pub fn source(&self) -> (res: Option<&rusqlite::Error>)
        ensures
            match res {
                Some(e) => self.spec_source() == Some(*e),
                None => self.spec_source() is None,
            },
    {
        match self {
            Error::Rusqlite(e) => Some(e),
            Error::Close(e) => Some(e),
            Error::ConnectionClosed => None,
            Error::Other(_) => None,
        }
    }

    /// The human-readable description of the error.
    ///
    /// `Rusqlite` and `Close` put a fixed prefix before rusqlite's own text of the
    /// wrapped error (what its `Display` writes, through `ToString`);
    /// `ConnectionClosed` has a fixed text; `Other` is its message.
    pub fn to_string(&self) -> (text: String)
        ensures
            match self {
                Error::Rusqlite(x) => exists|d: String|
                    to_string_from_display_ensures::<rusqlite::Error>(&x, d) && text@
                        == rusqlite_prefix() + d@,
                Error::Close(x) => exists|d: String|
                    to_string_from_display_ensures::<rusqlite::Error>(&x, d) && text@
                        == close_prefix() + d@,
                Error::ConnectionClosed => text@ == connection_closed_text(),
                Error::Other(msg) => text@ == msg@,
            },
    {
        match self {
            Error::Rusqlite(e) => {
                let detail = e.to_string();
                let mut text = "rusqlite error: ".to_owned();
                text.append(detail.as_str());
                assert(text@ == rusqlite_prefix() + detail@);
                text
            },
            Error::ConnectionClosed => "connection is already closed".to_owned(),
            Error::Close(e) => {
                let detail = e.to_string();
                let mut text = "error closing connection: ".to_owned();
                text.append(detail.as_str());
                assert(text@ == close_prefix() + detail@);
                text
            },
            Error::Other(msg) => msg.clone(),
        }
    }
}

impl From<rusqlite::Error> for Error {
    fn from(e: rusqlite::Error) -> (res: Self) {
        Error::Rusqlite(e)
    }
}

impl FromSpecImpl<rusqlite::Error> for Error {
    open spec fn obeys_from_spec() -> bool {
        true
    }

    open spec fn from_spec(e: rusqlite::Error) -> Self {
        Error::Rusqlite(e)
    }
}

/// Converting a rusqlite error `e` gives `Error::Rusqlite(e)`, and the source of
/// that error is `e` again; its text starts with the rusqlite prefix.
pub proof fn lemma_from_then_source(e: rusqlite::Error)
    ensures
        <Error as FromSpec<rusqlite::Error>>::from_spec(e) == Error::Rusqlite(e),
        <Error as FromSpec<rusqlite::Error>>::from_spec(e).spec_source() == Some(e),
{
}

} // verus!
