//! The resolution of the settings from the files and the command line.

use vstd::prelude::*;
use crate::args::Args;
use crate::effective::{in_effect, last_defined, lemma_later_entries_win, EffectiveConfig};
use crate::entry::{entry_views, ConfigKey, EntryView};
use crate::error::{ConfigError, ErrorView};
use crate::file::{document_of, Document, DocumentView};
use crate::source::{source_outcome, ConfigSource, SourceView};
use crate::text::{borrow_text, copy_text, str_view, text_view};

verus! {

/// The origins of a list, each as contracts see it.
pub open spec fn source_views(sources: Seq<ConfigSource>) -> Seq<SourceView> {
    sources.map_values(|s: ConfigSource| s@)
}

/// The entries of all origins, in the order of the origins, or the error
/// of the first origin that is unusable.
pub open spec fn collected(sources: Seq<SourceView>) -> Result<Seq<EntryView>, ErrorView>
    decreases sources.len(),
{
    if sources.len() == 0 {
        Ok(Seq::empty())
    } else {
        match collected(sources.drop_last()) {
            Err(error) => Err(error),
            Ok(entries) => match source_outcome(sources.last()) {
                Err(error) => Err(error),
                Ok(more) => Ok(entries + more),
            },
        }
    }
}

/// An origin that is unusable makes every list that goes on behind it
/// unusable, with the same error.
pub proof fn lemma_first_error_stands(sources: Seq<SourceView>, n: int)
    requires
        0 <= n <= sources.len(),
        collected(sources.take(n)) is Err,
    ensures
        collected(sources) == collected(sources.take(n)),
    decreases sources.len() - n,
{
    if n == sources.len() {
        assert(sources.take(n) =~= sources);
    } else {
        assert(sources.take(n + 1).drop_last() =~= sources.take(n));
        lemma_first_error_stands(sources, n + 1);
    }
}

/// Merges the origins in the order given: every origin is collected, and
/// each of its entries replaces what an earlier entry put in effect for the
/// same key. The first origin that is unusable ends the resolution with its
/// error, and nothing is resolved.
pub fn resolve(sources: &Vec<ConfigSource>) -> (outcome: Result<EffectiveConfig, ConfigError>)
    ensures
        match collected(source_views(sources@)) {
            Ok(entries) => outcome matches Ok(config) && in_effect(config, entries),
            Err(error) => outcome matches Err(e) && e@ == error,
        },
{
    let ghost views = source_views(sources@);
    let mut config = EffectiveConfig::new();
    let ghost mut done: Seq<EntryView> = Seq::empty();
    for i in 0..sources.len()
        invariant
            views == source_views(sources@),
            collected(views.take(i as int)) == Ok::<Seq<EntryView>, ErrorView>(done),
            in_effect(config, done),
    {
        proof {
            assert(views.take(i + 1).drop_last() =~= views.take(i as int));
            assert(views.take(i + 1).last() == sources[i as int]@);
        }
        match sources[i].collect() {
            Err(error) => {
                proof {
                    lemma_first_error_stands(views, i + 1);
                }
                return Err(error);
            },
            Ok(entries) => {
                let ghost before = config;
                config.merge(&entries);
                proof {
                    assert forall|key: ConfigKey|
                        #[trigger] config.lookup(key) == last_defined(
                            done + entry_views(entries@),
                            key,
                        ) by {
                        assert(before.lookup(key) == last_defined(done, key));
                        lemma_later_entries_win(done, entry_views(entries@), key);
                    }
                    done = done + entry_views(entries@);
                }
            },
        }
    }
    proof {
        assert(views.take(sources.len() as int) =~= views);
    }
    Ok(config)
}

/// A file that was looked for: where, and its text, or `None` where it
/// could not be found or read.
#[derive(Clone, Debug)]
pub struct FileProbe {
    pub origin: String,
    pub text: Option<String>,
}

/// The name of the configuration file that is looked for in the working
/// directory.
pub open spec fn local_origin() -> Seq<char> {
    "config.ini"@
}

/// The name of the configuration file that is looked for in the working
/// directory, and in the user's configuration directory.
pub fn config_file_name() -> (name: &'static str)
    ensures
        name@ == local_origin(),
{
    "config.ini"
}

/// The files that may be missing: the one in the working directory, then
/// the one of the user's configuration directory, where the platform has
/// such a directory.
pub open spec fn optional_files(
    local: DocumentView,
    user: Option<(Seq<char>, DocumentView)>,
) -> Seq<SourceView> {
    let local_file = seq![
        SourceView::File { origin: local_origin(), required: false, document: local },
    ];
    let user_file = match user {
        Some((origin, document)) => seq![SourceView::File { origin, required: false, document }],
        None => Seq::empty(),
    };
    local_file + user_file
}

/// The properties file, which has to be there where the command line
/// names one, and is no origin where it names none.
pub open spec fn properties_file(args: Args, properties: DocumentView) -> Seq<SourceView> {
    match args.properties {
        Some(path) => seq![
            SourceView::File { origin: path@, required: true, document: properties },
        ],
        None => Seq::empty(),
    }
}

/// The command line as an origin.
pub open spec fn command_line(args: Args) -> SourceView {
    SourceView::Args { address: text_view(args.address), password: text_view(args.password) }
}

/// The origins in their built-in order, from lowest to highest precedence:
/// the files that may be missing, the properties file, and the command
/// line, always last.
pub open spec fn builtin_order(
    args: Args,
    local: DocumentView,
    user: Option<(Seq<char>, DocumentView)>,
    properties: DocumentView,
) -> Seq<SourceView> {
    optional_files(local, user) + properties_file(args, properties) + seq![command_line(args)]
}

/// The file of the user's configuration directory as contracts see it,
/// given what became of reading it.
pub open spec fn user_view(user: Option<(String, Document)>) -> Option<(Seq<char>, DocumentView)> {
    match user {
        Some((origin, document)) => Some((origin@, document@)),
        None => None,
    }
}

/// Appends one origin to a list.
fn push_source(sources: &mut Vec<ConfigSource>, source: ConfigSource)
    ensures
        source_views(final(sources)@) == source_views(old(sources)@).push(source@),
{
    sources.push(source);
    assert(source_views(sources@) =~= source_views(old(sources)@).push(source@));
}

/// Lists the origins in their built-in order, given what became of reading
/// each file. What was read for a properties file counts only where the
/// command line names one.
pub fn default_sources(
    args: &Args,
    local: Document,
    user: Option<(String, Document)>,
    properties: Document,
) -> (sources: Vec<ConfigSource>)
    ensures
        source_views(sources@) == builtin_order(*args, local@, user_view(user), properties@),
{
    let mut sources: Vec<ConfigSource> = Vec::new();
    assert(source_views(sources@) =~= Seq::<SourceView>::empty());
    push_source(
        &mut sources,
        ConfigSource::File {
            origin: config_file_name().to_owned(),
            required: false,
            document: local,
        },
    );
    if let Some((origin, document)) = user {
        push_source(&mut sources, ConfigSource::File { origin, required: false, document });
    }
    if let Some(path) = &args.properties {
        push_source(
            &mut sources,
            ConfigSource::File { origin: path.clone(), required: true, document: properties },
        );
    }
    push_source(
        &mut sources,
        ConfigSource::Args {
            address: copy_text(&args.address),
            password: copy_text(&args.password),
        },
    );
    assert(source_views(sources@) =~= builtin_order(
        *args,
        local@,
        user_view(user),
        properties@,
    ));
    sources
}

/// The file of the user's configuration directory as contracts see it,
/// given its text.
pub open spec fn probe_view(user: Option<&FileProbe>) -> Option<(Seq<char>, DocumentView)> {
    match user {
        Some(probe) => Some((probe.origin@, document_of(text_view(probe.text)))),
        None => None,
    }
}

/// Resolves the settings from the files and the command line, in the
/// built-in order. `local` is the text of the file in the working
/// directory, `user` the file of the user's configuration directory, where
/// the platform has such a directory, and `properties` the text of the
/// properties file that the command line names; a text of `None` stands
/// for a file that could not be found or read.
pub fn parse_config(
    args: &Args,
    local: Option<&str>,
    user: Option<&FileProbe>,
    properties: Option<&str>,
) -> (outcome: Result<EffectiveConfig, ConfigError>)
    ensures
        match collected(
            builtin_order(
                *args,
                document_of(str_view(local)),
                probe_view(user),
                document_of(str_view(properties)),
            ),
        ) {
            Ok(entries) => outcome matches Ok(config) && in_effect(config, entries),
            Err(error) => outcome matches Err(e) && e@ == error,
        },
{
    let local_document = Document::read(local);
    let user_document = match user {
        Some(probe) => {
            Some((probe.origin.clone(), Document::read(borrow_text(&probe.text))))
        },
        None => None,
    };
    let properties_document = Document::read(properties);
    let sources = default_sources(args, local_document, user_document, properties_document);
    resolve(&sources)
}

} // verus!
