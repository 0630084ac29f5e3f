//! The ways in which parsing and fetching fail.

use vstd::prelude::*;
use vstd::string::*;

verus! {

/// A failure, with its message where it has one.
#[derive(Clone, Debug, PartialEq, Eq)]
pub enum Error {
    /// An output could not be classified or reassembled.
    ParseVout(String),
    /// The node could not be reached, or its answer could not be read.
    BitcoinRpc(String),
    /// The work was cancelled.
    Stopped,
    /// A channel was closed under a sender or a receiver.
    Channel,
}

pub enum ErrorView {
    ParseVout(Seq<char>),
    BitcoinRpc(Seq<char>),
    Stopped,
    Channel,
}

impl View for Error {
    type V = ErrorView;

    open spec fn view(&self) -> ErrorView {
        match self {
            Error::ParseVout(message) => ErrorView::ParseVout(message@),
            Error::BitcoinRpc(message) => ErrorView::BitcoinRpc(message@),
            Error::Stopped => ErrorView::Stopped,
            Error::Channel => ErrorView::Channel,
        }
    }
}

/// The text of a failure.
pub open spec fn error_message(error: ErrorView) -> Seq<char> {
    match error {
        ErrorView::ParseVout(message) => message,
        ErrorView::BitcoinRpc(message) => message,
        ErrorView::Stopped => "Stopped"@,
        ErrorView::Channel => "Channel"@,
    }
}

impl Error {
    /// The text of this failure.
    pub fn message(&self) -> (text: String)
        ensures
            text@ == error_message(self@),
    {
        match self {
            Error::ParseVout(message) => message.clone(),
            Error::BitcoinRpc(message) => message.clone(),
            Error::Stopped => String::from_str("Stopped"),
            Error::Channel => String::from_str("Channel"),
        }
    }
}

} // verus!
