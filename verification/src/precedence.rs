//! What holds of the resolution whatever the origins are: which origin
//! decides a key, and what a missing file comes to.

use vstd::prelude::*;
use crate::args::{address_entries, args_entries, args_entry, host_of, password_entries, port_of, Args};
use crate::cfg::{
    builtin_order, collected, command_line, local_origin, optional_files, properties_file,
};
use crate::effective::{last_defined, lemma_later_entries_win};
use crate::entry::{ConfigKey, EntryView};
use crate::error::ErrorView;
use crate::file::DocumentView;
use crate::source::{source_outcome, SourceView};
use crate::text::text_view;

verus! {

/// Two lists of origins, one after the other, are collected as the first
/// and then the second: the entries of both in that order, or the first
/// error.
pub proof fn lemma_collected_concat(first: Seq<SourceView>, second: Seq<SourceView>)
    ensures
        collected(first + second) == match collected(first) {
            Err(error) => Err(error),
            Ok(entries) => match collected(second) {
                Err(error) => Err(error),
                Ok(more) => Ok(entries + more),
            },
        },
    decreases second.len(),
{
    if second.len() == 0 {
        assert(first + second =~= first);
        if let Ok(entries) = collected(first) {
            assert(entries + Seq::<EntryView>::empty() =~= entries);
        }
    } else {
        assert((first + second).drop_last() =~= first + second.drop_last());
        assert((first + second).last() == second.last());
        lemma_collected_concat(first, second.drop_last());
        if let Ok(entries) = collected(first) {
            if let Ok(more) = collected(second.drop_last()) {
                if let Ok(last) = source_outcome(second.last()) {
                    assert(entries + (more + last) =~= (entries + more) + last);
                }
            }
        }
    }
}

/// A list of one origin is collected as that origin.
pub proof fn lemma_collected_one(source: SourceView)
    ensures
        collected(seq![source]) == source_outcome(source),
{
    let one = seq![source];
    assert(one.drop_last() =~= Seq::<SourceView>::empty());
    assert(collected(one.drop_last()) == Ok::<Seq<EntryView>, ErrorView>(Seq::empty()));
    if let Ok(entries) = source_outcome(source) {
        assert(Seq::<EntryView>::empty() + entries =~= entries);
    }
}

/// An optional file that is missing contributes nothing and raises no
/// error: the settings are resolved from the other origins as if the file
/// were not among them.
pub proof fn lemma_missing_optional_file(
    before: Seq<SourceView>,
    origin: Seq<char>,
    after: Seq<SourceView>,
)
    ensures
        collected(
            before + seq![
                SourceView::File { origin, required: false, document: DocumentView::Missing },
            ] + after,
        ) == collected(before + after),
{
    let file = SourceView::File { origin, required: false, document: DocumentView::Missing };
    lemma_collected_one(file);
    lemma_collected_concat(before, seq![file]);
    lemma_collected_concat(before + seq![file], after);
    lemma_collected_concat(before, after);
    if let Ok(entries) = collected(before) {
        assert(entries + Seq::<EntryView>::empty() =~= entries);
    }
}

/// A required file that is missing ends the resolution with an error that
/// names it, whatever the origins behind it hold, unless an origin before
/// it has failed already.
pub proof fn lemma_missing_required_file(
    before: Seq<SourceView>,
    origin: Seq<char>,
    after: Seq<SourceView>,
)
    requires
        collected(before) is Ok,
    ensures
        collected(
            before + seq![
                SourceView::File { origin, required: true, document: DocumentView::Missing },
            ] + after,
        ) == Err::<Seq<EntryView>, ErrorView>(ErrorView::Missing { origin }),
{
    let file = SourceView::File { origin, required: true, document: DocumentView::Missing };
    lemma_collected_one(file);
    lemma_collected_concat(before, seq![file]);
    lemma_collected_concat(before + seq![file], after);
}

/// The files that may be missing never make the resolution fail.
pub proof fn lemma_optional_files_never_fail(
    local: DocumentView,
    user: Option<(Seq<char>, DocumentView)>,
)
    ensures
        collected(optional_files(local, user)) is Ok,
{
    let local_file = SourceView::File { origin: local_origin(), required: false, document: local };
    lemma_collected_one(local_file);
    match user {
        Some((origin, document)) => {
            let user_file = SourceView::File { origin, required: false, document };
            lemma_collected_one(user_file);
            lemma_collected_concat(seq![local_file], seq![user_file]);
        },
        None => {
            assert(optional_files(local, user) =~= seq![local_file]);
        },
    }
}

/// In the built-in order the command line comes last: where the files can
/// be used, its entries stand behind all of theirs, and so decide every key
/// that the command line defines.
pub proof fn lemma_command_line_is_last(
    args: Args,
    local: DocumentView,
    user: Option<(Seq<char>, DocumentView)>,
    properties: DocumentView,
)
    ensures
        collected(builtin_order(args, local, user, properties)) == match collected(
            optional_files(local, user) + properties_file(args, properties),
        ) {
            Err(error) => Err(error),
            Ok(earlier) => Ok(
                earlier + args_entries(text_view(args.address), text_view(args.password)),
            ),
        },
{
    lemma_collected_one(command_line(args));
    lemma_collected_concat(
        optional_files(local, user) + properties_file(args, properties),
        seq![command_line(args)],
    );
}

/// A properties file that the command line names and that is missing ends
/// the resolution with an error that names it, whatever the other origins
/// hold.
pub proof fn lemma_missing_properties_file(
    args: Args,
    local: DocumentView,
    user: Option<(Seq<char>, DocumentView)>,
)
    requires
        args.properties is Some,
    ensures
        collected(builtin_order(args, local, user, DocumentView::Missing)) == Err::<
            Seq<EntryView>,
            ErrorView,
        >(ErrorView::Missing { origin: args.properties.unwrap()@ }),
{
    lemma_optional_files_never_fail(local, user);
    let empty = Seq::<SourceView>::empty();
    assert(optional_files(local, user) + empty =~= optional_files(local, user));
    lemma_missing_required_file(
        optional_files(local, user),
        args.properties.unwrap()@,
        seq![command_line(args)],
    );
}

/// Where the file in the working directory and the file of the user's
/// configuration directory are both missing, the settings are resolved
/// from the properties file and the command line alone, with no error on
/// account of the missing files.
pub proof fn lemma_missing_optional_files(
    args: Args,
    user: Option<Seq<char>>,
    properties: DocumentView,
)
    ensures
        collected(
            builtin_order(
                args,
                DocumentView::Missing,
                match user {
                    Some(origin) => Some((origin, DocumentView::Missing)),
                    None => None,
                },
                properties,
            ),
        ) == collected(properties_file(args, properties) + seq![command_line(args)]),
{
    let rest = properties_file(args, properties) + seq![command_line(args)];
    let empty = Seq::<SourceView>::empty();
    let local_file = SourceView::File {
        origin: local_origin(),
        required: false,
        document: DocumentView::Missing,
    };
    lemma_missing_optional_file(empty, local_origin(), rest);
    assert(empty + seq![local_file] + rest =~= seq![local_file] + rest);
    assert(empty + rest =~= rest);
    match user {
        Some(origin) => {
            let user_file = SourceView::File {
                origin,
                required: false,
                document: DocumentView::Missing,
            };
            lemma_missing_optional_file(seq![local_file], origin, rest);
            assert(builtin_order(
                args,
                DocumentView::Missing,
                Some((origin, DocumentView::Missing)),
                properties,
            ) =~= seq![local_file] + seq![user_file] + rest);
        },
        None => {
            assert(builtin_order(args, DocumentView::Missing, None, properties) =~= seq![
                local_file,
            ] + rest);
        },
    }
}

/// An address of the command line wins over every earlier origin: its
/// host, unless empty, is the server's address in effect, and its port,
/// where it has a separator, is the port in effect.
pub proof fn lemma_command_line_address_wins(
    earlier: Seq<EntryView>,
    address: Seq<char>,
    password: Option<Seq<char>>,
)
    ensures
        host_of(address).len() > 0 ==> last_defined(
            earlier + args_entries(Some(address), password),
            ConfigKey::ServerIp,
        ) == Some(args_entry(ConfigKey::ServerIp, host_of(address))),
        port_of(address) matches Some(port) ==> last_defined(
            earlier + args_entries(Some(address), password),
            ConfigKey::RconPort,
        ) == Some(args_entry(ConfigKey::RconPort, port)),
{
    let from_password = password_entries(password);
    let from_address = address_entries(Some(address));
    let all = args_entries(Some(address), password);
    lemma_later_entries_win(earlier, all, ConfigKey::ServerIp);
    lemma_later_entries_win(earlier, all, ConfigKey::RconPort);
    lemma_later_entries_win(from_password, from_address, ConfigKey::ServerIp);
    lemma_later_entries_win(from_password, from_address, ConfigKey::RconPort);
    reveal_with_fuel(last_defined, 3);
}

/// A command line that supplies a password and no address leaves the
/// server's address and port as the earlier origins define them, and puts
/// its password in effect.
pub proof fn lemma_password_alone_keeps_address(earlier: Seq<EntryView>, password: Seq<char>)
    ensures
        last_defined(earlier + args_entries(None, Some(password)), ConfigKey::ServerIp)
            == last_defined(earlier, ConfigKey::ServerIp),
        last_defined(earlier + args_entries(None, Some(password)), ConfigKey::RconPort)
            == last_defined(earlier, ConfigKey::RconPort),
        last_defined(earlier + args_entries(None, Some(password)), ConfigKey::RconPassword)
            == Some(args_entry(ConfigKey::RconPassword, password)),
{
    let all = args_entries(None, Some(password));
    assert(all =~= seq![args_entry(ConfigKey::RconPassword, password)]);
    lemma_later_entries_win(earlier, all, ConfigKey::ServerIp);
    lemma_later_entries_win(earlier, all, ConfigKey::RconPort);
    lemma_later_entries_win(earlier, all, ConfigKey::RconPassword);
    reveal_with_fuel(last_defined, 2);
}

/// An option that the command line does not supply defines nothing: with
/// neither address nor password every key is left to the earlier origins.
pub proof fn lemma_empty_command_line_changes_nothing(earlier: Seq<EntryView>, key: ConfigKey)
    ensures
        last_defined(earlier + args_entries(None, None), key) == last_defined(earlier, key),
{
    assert(earlier + args_entries(None, None) =~= earlier);
}

} // verus!
