//! The error taxonomy of the client.

use vstd::prelude::*;
use vstd::string::*;

verus! {

/// What went wrong, without the detail.
#[derive(Clone, Copy, Debug, PartialEq, Eq, Structural)]
pub enum ErrorKind {
    /// The transport to the server could not be established.
    ConnectFailed,
    /// The bind did not complete, or the server rejected it.
    BindFailed,
    /// A scope token other than `base`, `one` or `sub` was given.
    InvalidScope,
    /// The search did not complete, or the server reported a non-success code.
    SearchFailed,
    /// An output mode other than `json` or `table` was given.
    InvalidOutputMode,
    /// The session could not be closed cleanly.
    UnbindFailed,
    /// Something happened that the rules of the client leave no room for: an
    /// event that does not fit the stage of the session, or a failure of a
    /// supporting library where it cannot fail.
    Unexpected,
}

/// An error of the client: its kind, the step that failed, and the underlying
/// cause where there is one.
#[derive(Clone, Debug, PartialEq, Eq)]
pub struct ClientError {
    pub kind: ErrorKind,
    pub context: String,
    pub cause: Option<String>,
}

/// What an error holds.
pub struct ErrorView {
    pub kind: ErrorKind,
    pub context: Seq<char>,
    pub cause: Option<Seq<char>>,
}

impl View for ClientError {
    type V = ErrorView;

    open spec fn view(&self) -> ErrorView {
        ErrorView { kind: self.kind, context: self.context@, cause: self.cause_view() }
    }
}

/// The text of a diagnostic: the context, followed by `": "` and the cause
/// where there is one.
pub open spec fn report_text(context: Seq<char>, cause: Option<Seq<char>>) -> Seq<char> {
    match cause {
        Some(c) => context + seq![':', ' '] + c,
        None => context,
    }
}

impl ClientError {
    /// The cause as a sequence of characters, where there is one.
    pub open spec fn cause_view(&self) -> Option<Seq<char>> {
        match self.cause {
            Some(c) => Some(c@),
            None => None,
        }
    }

    /// An error without an underlying cause.
    pub fn plain(kind: ErrorKind, context: String) -> (e: ClientError)
        ensures
            e.kind == kind,
            e.context@ == context@,
            e.cause is None,
    {
        ClientError { kind, context, cause: None }
    }

    /// An error that wraps an underlying cause.
    pub fn caused(kind: ErrorKind, context: &str, cause: &str) -> (e: ClientError)
        ensures
            e.kind == kind,
            e.context@ == context@,
            e.cause_view() == Some(cause@),
    {
        ClientError {
            kind,
            context: String::from_str(context),
            cause: Some(String::from_str(cause)),
        }
    }

    /// The diagnostic as one line: context first, then the cause.
    pub fn report(&self) -> (text: String)
        ensures
            text@ == report_text(self.context@, self.cause_view()),
    {
        let mut text = self.context.clone();
        match &self.cause {
            Some(c) => {
                proof {
                    reveal_strlit(": ");
                    assert(": "@ =~= seq![':', ' ']);
                }
                text.append(": ");
                text.append(c.as_str());
            },
            None => {},
        }
        text
    }
}

} // verus!
