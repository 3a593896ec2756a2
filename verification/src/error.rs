//! Why the resolution of the settings can fail.

use vstd::prelude::*;
use vstd::string::StringExecFns;

verus! {

/// A configuration file that had to be there and could not be used.
#[derive(Clone, Debug)]
pub enum ConfigError {
    /// The file could not be found or read.
    Missing { origin: String },
    /// The file is no INI document; `detail` is the parser's complaint.
    Malformed { origin: String, detail: String },
}

/// A `ConfigError` as contracts see it.
pub enum ErrorView {
    Missing { origin: Seq<char> },
    Malformed { origin: Seq<char>, detail: Seq<char> },
}

impl View for ConfigError {
    type V = ErrorView;

    open spec fn view(&self) -> ErrorView {
        match self {
            ConfigError::Missing { origin } => ErrorView::Missing { origin: origin@ },
            ConfigError::Malformed { origin, detail } => ErrorView::Malformed {
                origin: origin@,
                detail: detail@,
            },
        }
    }
}

/// The sentence that tells a reader of the error.
pub open spec fn message_of(error: ErrorView) -> Seq<char> {
    match error {
        ErrorView::Missing { origin } => "configuration file "@ + origin + " not found"@,
        ErrorView::Malformed { origin, detail } => "configuration file "@ + origin
            + " is malformed: "@ + detail,
    }
}

impl ConfigError {
    /// The sentence that tells a reader of the error.
    pub fn message(&self) -> (text: String)
        ensures
            text@ == message_of(self@),
    {
        let mut text = String::from_str("configuration file ");
        match self {
            ConfigError::Missing { origin } => {
                text.append(origin.as_str());
                text.append(" not found");
            },
            ConfigError::Malformed { origin, detail } => {
                text.append(origin.as_str());
                text.append(" is malformed: ");
                text.append(detail.as_str());
            },
        }
        text
    }
}

} // verus!
