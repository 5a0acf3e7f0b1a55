//! The ways in which an operation on the monitor fails.

use vstd::prelude::*;
use vstd::string::*;
use crate::feature::Feature;
use crate::text::{decimal, spec_decimal};

verus! {

/// A failed operation. The first two variants are validation errors: they
/// are found before the transport is touched. The last one reports a failure
/// of the transport itself. None is retried.
#[derive(Clone, Debug, PartialEq, Eq)]
pub enum Error {
    /// `value` is larger than `max`, the largest value `feature` accepts.
    OutOfRange { feature: Feature, value: u8, max: u8 },
    /// The profile name is none of the known ones.
    UnknownProfile,
    /// A control transfer failed; `cause` is the transport's account of it.
    Transport { cause: String },
}

/// Mathematical model of an [`Error`].
pub ghost enum ErrorModel {
    OutOfRange { feature: Feature, value: u8, max: u8 },
    UnknownProfile,
    Transport { cause: Seq<char> },
}

impl View for Error {
    type V = ErrorModel;

    open spec fn view(&self) -> ErrorModel {
        match *self {
            Error::OutOfRange { feature, value, max } => ErrorModel::OutOfRange {
                feature,
                value,
                max,
            },
            Error::UnknownProfile => ErrorModel::UnknownProfile,
            Error::Transport { cause } => ErrorModel::Transport { cause: cause@ },
        }
    }
}

/// The text between a feature's name and its bound in a range message.
pub open spec fn range_phrase() -> Seq<char> {
    " must be between 0 and "@
}

/// The message of an unknown profile name.
pub open spec fn unknown_profile_message() -> Seq<char> {
    "Please use a valid profile name"@
}

/// The cause reported when a page read returns another number of bytes than
/// a page holds.
pub open spec fn incomplete_read_cause() -> Seq<char> {
    "Incomplete page read"@
}

impl ErrorModel {
    /// Whether the error was found before any transfer.
    pub open spec fn is_validation(self) -> bool {
        !(self is Transport)
    }

    /// The message shown to the user. A range message names the feature and
    /// its bound; a transport message is the cause as the transport gave it.
    pub open spec fn message(self) -> Seq<char> {
        match self {
            ErrorModel::OutOfRange { feature, value, max } => feature.spec_name() + range_phrase()
                + spec_decimal(max as nat),
            ErrorModel::UnknownProfile => unknown_profile_message(),
            ErrorModel::Transport { cause } => cause,
        }
    }
}

impl Error {
    /// Whether the error was found before any transfer.
    pub fn is_validation(&self) -> (validation: bool)
        ensures
            validation == self@.is_validation(),
    {
        match self {
            Error::Transport { .. } => false,
            _ => true,
        }
    }

    /// The message shown to the user.
    pub fn message(&self) -> (text: String)
        ensures
            text@ == self@.message(),
    {
        match self {
            Error::OutOfRange { feature, value: _, max } => {
                let mut text = String::from_str(feature.name());
                text.append(" must be between 0 and ");
                let bound = decimal(*max);
                text.append(bound.as_str());
                text
            },
            Error::UnknownProfile => String::from_str("Please use a valid profile name"),
            Error::Transport { cause } => cause.clone(),
        }
    }

    /// The transport error of a page read that returned another number of
    /// bytes than a page holds.
    pub fn incomplete_read() -> (error: Error)
        ensures
            error@ == (ErrorModel::Transport { cause: incomplete_read_cause() }),
    {
        Error::Transport { cause: String::from_str("Incomplete page read") }
    }

    /// The transport error with the given cause.
    pub fn transport(cause: String) -> (error: Error)
        ensures
            error@ == (ErrorModel::Transport { cause: cause@ }),
    {
        Error::Transport { cause }
    }
}

} // verus!
