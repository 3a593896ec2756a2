//! The origins that settings are collected from.

use vstd::prelude::*;
use crate::args::{args_entries, collect_args};
use crate::entry::{ConfigEntry, EntryView};
use crate::error::{ConfigError, ErrorView};
use crate::file::{file_outcome, outcome_view, Document, DocumentView};
use crate::text::text_view;

verus! {

/// One origin of settings.
#[derive(Clone, Debug)]
pub enum ConfigSource {
    /// A configuration file: where it lies, whether it has to be there, and
    /// what became of reading it.
    File { origin: String, required: bool, document: Document },
    /// The command line: the address and the password that it supplies.
    Args { address: Option<String>, password: Option<String> },
}

/// A `ConfigSource` as contracts see it.
pub enum SourceView {
    File { origin: Seq<char>, required: bool, document: DocumentView },
    Args { address: Option<Seq<char>>, password: Option<Seq<char>> },
}

impl View for ConfigSource {
    type V = SourceView;

    open spec fn view(&self) -> SourceView {
        match self {
            ConfigSource::File { origin, required, document } => SourceView::File {
                origin: origin@,
                required: *required,
                document: document@,
            },
            ConfigSource::Args { address, password } => SourceView::Args {
                address: text_view(*address),
                password: text_view(*password),
            },
        }
    }
}

/// What an origin contributes: its entries, or the error that makes it
/// unusable.
pub open spec fn source_outcome(source: SourceView) -> Result<Seq<EntryView>, ErrorView> {
    match source {
        SourceView::File { origin, required, document } => file_outcome(origin, required, document),
        SourceView::Args { address, password } => Ok(args_entries(address, password)),
    }
}

impl ConfigSource {
    /// Collects the entries of the origin.
    pub fn collect(&self) -> (outcome: Result<Vec<ConfigEntry>, ConfigError>)
        ensures
            outcome_view(outcome) == source_outcome(self@),
    {
        match self {
            ConfigSource::File { origin, required, document } => document.collect(
                origin.as_str(),
                *required,
            ),
            ConfigSource::Args { address, password } => Ok(collect_args(address, password)),
        }
    }
}

} // verus!
