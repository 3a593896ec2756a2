//! The settings that the command line supplies.

use vstd::prelude::*;
use crate::entry::{entry_views, push_entry, ConfigEntry, ConfigKey, EntryView};
use crate::text::{first_index, lemma_first_index_is, text_view};

verus! {

/// What the command line holds.
#[derive(Clone, Debug)]
pub struct Args {
    /// The words of the command to execute.
    pub command: Vec<String>,
    /// Where a properties file with the credentials lies.
    pub properties: Option<String>,
    /// The address of the server, with or without a port.
    pub address: Option<String>,
    /// The password of the server.
    pub password: Option<String>,
    /// Whether coloured output is suppressed.
    pub no_color: bool,
}

/// The character between the host and the port of an address.
pub const PORT_SEPARATOR: char = ':';

/// The host of an address: what stands before its first separator.
pub open spec fn host_of(addr: Seq<char>) -> Seq<char> {
    addr.take(first_index(addr, PORT_SEPARATOR))
}

/// The port of an address: what stands behind its first separator, if it
/// has one.
pub open spec fn port_of(addr: Seq<char>) -> Option<Seq<char>> {
    let n = first_index(addr, PORT_SEPARATOR);
    if 0 <= n < addr.len() {
        Some(addr.skip(n + 1))
    } else {
        None
    }
}

/// Splits an address at its first separator into its host and, where a
/// separator is there, its port.
pub fn split_address(addr: &str) -> (parts: (String, Option<String>))
    ensures
        parts.0@ == host_of(addr@),
        text_view(parts.1) == port_of(addr@),
{
    let mut host = String::new();
    let mut port = String::new();
    let mut found = false;
    for c in it: addr.chars()
        invariant
            it.seq() == addr@,
            !found ==> {
                &&& host@ == addr@.take(it.index())
                &&& port@ == Seq::<char>::empty()
                &&& forall|i: int| 0 <= i < it.index() ==> addr@[i] != PORT_SEPARATOR
            },
            found ==> {
                let n = first_index(addr@, PORT_SEPARATOR);
                &&& 0 <= n < it.index()
                &&& host@ == addr@.take(n)
                &&& port@ == addr@.subrange(n + 1, it.index())
            },
    {
        if found {
            port.push(c);
            proof {
                let n = first_index(addr@, PORT_SEPARATOR);
                assert(addr@.subrange(n + 1, it.index() + 1) =~= addr@.subrange(
                    n + 1,
                    it.index(),
                ).push(c));
            }
        } else if c == PORT_SEPARATOR {
            found = true;
            proof {
                lemma_first_index_is(addr@, PORT_SEPARATOR, it.index());
                assert(addr@.subrange(it.index() + 1, it.index() + 1) =~= Seq::<char>::empty());
            }
        } else {
            host.push(c);
            proof {
                assert(addr@.take(it.index() + 1) =~= addr@.take(it.index()).push(c));
            }
        }
    }
    proof {
        if found {
            let n = first_index(addr@, PORT_SEPARATOR);
            assert(addr@.subrange(n + 1, addr@.len() as int) =~= addr@.skip(n + 1));
        } else {
            lemma_first_index_is(addr@, PORT_SEPARATOR, addr@.len() as int);
        }
    }
    if found {
        (host, Some(port))
    } else {
        (host, None)
    }
}

/// The label of the entries that come from the command line.
pub open spec fn args_origin() -> Seq<char> {
    "command line arguments"@
}

/// The entry that the command line gives for `key` with `value`.
pub open spec fn args_entry(key: ConfigKey, value: Seq<char>) -> EntryView {
    EntryView { key, value, provenance: args_origin() }
}

/// What a supplied password contributes: one entry, or nothing where no
/// password was supplied.
pub open spec fn password_entries(password: Option<Seq<char>>) -> Seq<EntryView> {
    match password {
        Some(p) => seq![args_entry(ConfigKey::RconPassword, p)],
        None => Seq::empty(),
    }
}

/// What a supplied address contributes: its host, unless that is empty,
/// and then its port, if the address has a separator.
pub open spec fn address_entries(address: Option<Seq<char>>) -> Seq<EntryView> {
    match address {
        Some(a) => {
            let host = if host_of(a).len() > 0 {
                seq![args_entry(ConfigKey::ServerIp, host_of(a))]
            } else {
                Seq::empty()
            };
            let port = match port_of(a) {
                Some(p) => seq![args_entry(ConfigKey::RconPort, p)],
                None => Seq::empty(),
            };
            host + port
        },
        None => Seq::empty(),
    }
}

/// The entries of the command line: those of the password, then those of
/// the address. An option that was not supplied contributes nothing.
pub open spec fn args_entries(address: Option<Seq<char>>, password: Option<Seq<char>>) -> Seq<
    EntryView,
> {
    password_entries(password) + address_entries(address)
}

/// The settings that a command line with the given address and password
/// defines.
pub fn collect_args(address: &Option<String>, password: &Option<String>) -> (entries: Vec<
    ConfigEntry,
>)
    ensures
        entry_views(entries@) == args_entries(text_view(*address), text_view(*password)),
{
    let origin = "command line arguments";
    let mut entries: Vec<ConfigEntry> = Vec::new();
    assert(entry_views(entries@) =~= Seq::<EntryView>::empty());
    if let Some(password) = password {
        push_entry(
            &mut entries,
            ConfigEntry::new(ConfigKey::RconPassword, password.as_str(), origin),
        );
    }
    assert(entry_views(entries@) =~= password_entries(text_view(*password)));
    if let Some(address) = address {
        let (host, port) = split_address(address.as_str());
        if !host.as_str().is_empty() {
            push_entry(&mut entries, ConfigEntry::new(ConfigKey::ServerIp, host.as_str(), origin));
        }
        if let Some(port) = port {
            push_entry(&mut entries, ConfigEntry::new(ConfigKey::RconPort, port.as_str(), origin));
        }
    }
    assert(entry_views(entries@) =~= args_entries(text_view(*address), text_view(*password)));
    entries
}

impl Args {
    /// The settings that the command line defines.
    pub fn collect(&self) -> (entries: Vec<ConfigEntry>)
        ensures
            entry_views(entries@) == args_entries(
                text_view(self.address),
                text_view(self.password),
            ),
    {
        collect_args(&self.address, &self.password)
    }
}

} // verus!
