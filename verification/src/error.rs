//! The errors of the codec and of the calls to an origin.

use vstd::prelude::*;
use vstd::string::*;

verus! {

/// Why bytes could not be decoded.
#[derive(Debug, Clone, Copy, PartialEq, Eq, Structural)]
pub enum HttpError {
    /// The bytes do not have the framing of a request or a response.
    BadFormat,
    /// A token is not one that the codec knows.
    UnknownVersion,
    /// The text of a request line could not be parsed.
    ParserError,
}

impl HttpError {
    /// The text of the error's message.
    pub open spec fn spec_message(self) -> Seq<char> {
        match self {
            HttpError::BadFormat => "Http seems to be wrongly formatted"@,
            HttpError::UnknownVersion => "Http version seems to be unknown"@,
            HttpError::ParserError => "Error while parsing the request"@,
        }
    }

    /// The error as a line for an operator.
    pub fn message(&self) -> (text: String)
        ensures
            text@ == self.spec_message(),
    {
        match self {
            HttpError::BadFormat => String::from_str("Http seems to be wrongly formatted"),
            HttpError::UnknownVersion => String::from_str("Http version seems to be unknown"),
            HttpError::ParserError => String::from_str("Error while parsing the request"),
        }
    }
}

/// What can go wrong in the proxy outside the exchange with a client.
#[derive(Debug, Clone, Copy, PartialEq, Eq, Structural)]
pub enum ProxyError {
    LogfilesIssue,
}

impl ProxyError {
    /// The text of the error's message.
    pub open spec fn spec_message(self) -> Seq<char> {
        "An issue arised with one or more of the log files"@
    }

    /// The error as a line for an operator.
    pub fn message(&self) -> (text: String)
        ensures
            text@ == self.spec_message(),
    {
        String::from_str("An issue arised with one or more of the log files")
    }
}

/// A failed exchange with a peer: the peer's name, then the cause as the
/// transport reported it.
#[derive(Debug, Clone, PartialEq, Eq)]
pub enum ServerError {
    /// The peer could not be connected to.
    Unresponsive(String, String),
    /// Writing to the peer failed.
    ServerWriteError(String, String),
    /// Reading from the peer failed.
    ServerReadError(String, String),
}

/// A `ServerError` as plain values.
pub enum ServerErrorView {
    Unresponsive(Seq<char>, Seq<char>),
    ServerWriteError(Seq<char>, Seq<char>),
    ServerReadError(Seq<char>, Seq<char>),
}

impl View for ServerError {
    type V = ServerErrorView;

    open spec fn view(&self) -> ServerErrorView {
        match self {
            ServerError::Unresponsive(t, c) => ServerErrorView::Unresponsive(t@, c@),
            ServerError::ServerWriteError(t, c) => ServerErrorView::ServerWriteError(t@, c@),
            ServerError::ServerReadError(t, c) => ServerErrorView::ServerReadError(t@, c@),
        }
    }
}

impl ServerErrorView {
    /// The peer that the error names.
    pub open spec fn target(self) -> Seq<char> {
        match self {
            ServerErrorView::Unresponsive(t, _) => t,
            ServerErrorView::ServerWriteError(t, _) => t,
            ServerErrorView::ServerReadError(t, _) => t,
        }
    }

    /// The text of the error's message: it names the peer and gives the cause.
    pub open spec fn message(self) -> Seq<char> {
        match self {
            ServerErrorView::ServerReadError(t, c) => "server ["@ + t
                + "] error while reading, reason: "@ + c,
            ServerErrorView::ServerWriteError(t, c) => "server ["@ + t
                + "] error while writing, reason: "@ + c,
            ServerErrorView::Unresponsive(t, c) => "server ["@ + t + "] is unresponsive, reason: "@
                + c,
        }
    }
}

impl ServerError {
    /// The error as a line for an operator.
    pub fn message(&self) -> (text: String)
        ensures
            text@ == self@.message(),
    {
        let mut text = String::from_str("server [");
        match self {
            ServerError::ServerReadError(t, c) => {
                text.append(t.as_str());
                text.append("] error while reading, reason: ");
                text.append(c.as_str());
            },
            ServerError::ServerWriteError(t, c) => {
                text.append(t.as_str());
                text.append("] error while writing, reason: ");
                text.append(c.as_str());
            },
            ServerError::Unresponsive(t, c) => {
                text.append(t.as_str());
                text.append("] is unresponsive, reason: ");
                text.append(c.as_str());
            },
        }
        text
    }
}

} // verus!
