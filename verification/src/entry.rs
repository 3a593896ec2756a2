//! The settings that a configuration origin can define.

use vstd::prelude::*;

verus! {

/// The settings that are recognised; every other key of an origin is
/// ignored.
#[derive(Clone, Copy, Debug, PartialEq, Eq, Structural)]
pub enum ConfigKey {
    ServerIp,
    RconPort,
    RconPassword,
}

impl ConfigKey {
    /// The key path under which the setting is written.
    pub open spec fn path(self) -> Seq<char> {
        match self {
            ConfigKey::ServerIp => "server-ip"@,
            ConfigKey::RconPort => "rcon.port"@,
            ConfigKey::RconPassword => "rcon.password"@,
        }
    }

    /// The key path under which the setting is written.
    pub fn name(&self) -> (name: &'static str)
        ensures
            name@ == self.path(),
    {
        match self {
            ConfigKey::ServerIp => "server-ip",
            ConfigKey::RconPort => "rcon.port",
            ConfigKey::RconPassword => "rcon.password",
        }
    }
}

/// One setting as an origin defines it: the key, the value, and a label
/// that tells a reader where the value came from.
#[derive(Clone, Debug)]
pub struct ConfigEntry {
    pub key: ConfigKey,
    pub value: String,
    pub provenance: String,
}

/// A `ConfigEntry` as contracts see it.
pub struct EntryView {
    pub key: ConfigKey,
    pub value: Seq<char>,
    pub provenance: Seq<char>,
}

impl View for ConfigEntry {
    type V = EntryView;

    open spec fn view(&self) -> EntryView {
        EntryView { key: self.key, value: self.value@, provenance: self.provenance@ }
    }
}

/// The entries of a list, each as contracts see it.
pub open spec fn entry_views(entries: Seq<ConfigEntry>) -> Seq<EntryView> {
    entries.map_values(|e: ConfigEntry| e@)
}

impl ConfigEntry {
    /// The entry that defines `key` as `value`, labelled with `provenance`.
    pub fn new(key: ConfigKey, value: &str, provenance: &str) -> (entry: Self)
        ensures
            entry@ == (EntryView { key, value: value@, provenance: provenance@ }),
    {
        ConfigEntry { key, value: value.to_owned(), provenance: provenance.to_owned() }
    }

    /// A copy of the entry.
    pub fn duplicate(&self) -> (copy: Self)
        ensures
            copy@ == self@,
    {
        ConfigEntry {
            key: self.key,
            value: self.value.clone(),
            provenance: self.provenance.clone(),
        }
    }
}

/// Appends one entry to a list.
pub fn push_entry(entries: &mut Vec<ConfigEntry>, entry: ConfigEntry)
    ensures
        entry_views(final(entries)@) == entry_views(old(entries)@).push(entry@),
{
    entries.push(entry);
    assert(entry_views(entries@) =~= entry_views(old(entries)@).push(entry@));
}

} // verus!
