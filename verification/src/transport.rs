//! What an attempt comes back with, and which failures still count as a
//! completed response.

use vstd::prelude::*;

verus! {

/// The message of the one transport failure that is tolerated: the remote
/// end closed the connection before its response was complete.
pub open spec fn incomplete_message() -> Seq<char> {
    "parsed HTTP message from remote is incomplete"@
}

/// A failure of the transport under a request, known by its message.
#[derive(Clone, Debug, PartialEq, Eq)]
pub struct TransportError {
    message: String,
}

impl View for TransportError {
    type V = Seq<char>;

    closed spec fn view(&self) -> Seq<char> {
        self.message@
    }
}

impl TransportError {
    /// A transport failure with the given message.
    pub fn new(message: String) -> (error: Self)
        ensures
            error@ == message@,
    {
        TransportError { message }
    }

    /// The failure's message.
    pub fn message(&self) -> (message: &str)
        ensures
            message@ == self@,
    {
        self.message.as_str()
    }
}

/// Whether `error` says that the response was cut short. The test is on the
/// exact message, nothing looser.
pub fn is_incomplete(error: &TransportError) -> (tolerated: bool)
    ensures
        tolerated == (error@ == incomplete_message()),
{
    let expected = String::from_str("parsed HTTP message from remote is incomplete");
    error.message == expected
}

/// How one attempt ended. A response counts as a success whatever its status.
#[derive(Clone, Debug, PartialEq, Eq)]
pub enum Outcome {
    /// A response arrived.
    Success,
    /// The transport failed.
    Failure(TransportError),
}

/// An outcome as contracts see it.
pub enum OutcomeView {
    Success,
    Failure(Seq<char>),
}

impl View for Outcome {
    type V = OutcomeView;

    open spec fn view(&self) -> OutcomeView {
        match self {
            Outcome::Success => OutcomeView::Success,
            Outcome::Failure(error) => OutcomeView::Failure(error@),
        }
    }
}

/// Whether an outcome counts as a completed response: a success does, and so
/// does the tolerated failure.
pub open spec fn counts(outcome: OutcomeView) -> bool {
    match outcome {
        OutcomeView::Success => true,
        OutcomeView::Failure(message) => message == incomplete_message(),
    }
}

impl Outcome {
    /// Whether this outcome counts as a completed response.
    pub fn is_completion(&self) -> (counted: bool)
        ensures
            counted == counts(self@),
    {
        match self {
            Outcome::Success => true,
            Outcome::Failure(error) => is_incomplete(error),
        }
    }
}

} // verus!
