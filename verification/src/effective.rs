//! The settings that are in effect once the origins are merged.

use vstd::prelude::*;
use vstd::string::StringExecFns;
use crate::entry::{entry_views, ConfigEntry, ConfigKey, EntryView};
use crate::text::text_view;

verus! {

/// An optional entry as contracts see it.
pub open spec fn slot_view(slot: Option<ConfigEntry>) -> Option<EntryView> {
    match slot {
        Some(entry) => Some(entry@),
        None => None,
    }
}

/// The settings that are in effect: for each recognised key the entry of
/// the origin of highest precedence that defines it, or nothing where no
/// origin does.
#[derive(Debug)]
pub struct EffectiveConfig {
    server_ip: Option<ConfigEntry>,
    port: Option<ConfigEntry>,
    password: Option<ConfigEntry>,
}

/// A copy of an optional entry.
fn copy_slot(slot: &Option<ConfigEntry>) -> (copy: Option<ConfigEntry>)
    ensures
        slot_view(copy) == slot_view(*slot),
        copy matches Some(entry) ==> slot matches Some(held) && entry.key == held.key,
{
    match slot {
        Some(entry) => Some(entry.duplicate()),
        None => None,
    }
}

impl Clone for EffectiveConfig {
    /// Settings with the same entries in effect.
    fn clone(&self) -> (copy: Self)
        ensures
            copy@ == self@,
    {
        proof {
            use_type_invariant(self);
        }
        let copy = EffectiveConfig {
            server_ip: copy_slot(&self.server_ip),
            port: copy_slot(&self.port),
            password: copy_slot(&self.password),
        };
        proof {
            assert(copy@ =~= self@);
        }
        copy
    }
}

impl View for EffectiveConfig {
    type V = Map<ConfigKey, EntryView>;

    /// The keys that are defined, each with the entry in effect for it.
    closed spec fn view(&self) -> Map<ConfigKey, EntryView> {
        Map::new(
            |key: ConfigKey| self.slot(key) is Some,
            |key: ConfigKey| self.slot(key).unwrap(),
        )
    }
}

impl EffectiveConfig {
    /// What is held for `key`.
    spec fn slot(&self, key: ConfigKey) -> Option<EntryView> {
        match key {
            ConfigKey::ServerIp => slot_view(self.server_ip),
            ConfigKey::RconPort => slot_view(self.port),
            ConfigKey::RconPassword => slot_view(self.password),
        }
    }

    /// Every entry is held under its own key.
    #[verifier::type_invariant]
    spec fn keyed(&self) -> bool {
        &&& self.server_ip matches Some(entry) ==> entry.key == ConfigKey::ServerIp
        &&& self.port matches Some(entry) ==> entry.key == ConfigKey::RconPort
        &&& self.password matches Some(entry) ==> entry.key == ConfigKey::RconPassword
    }

    /// The entry that is in effect for `key`, if the key is defined.
    pub open spec fn lookup(&self, key: ConfigKey) -> Option<EntryView> {
        if self@.contains_key(key) {
            Some(self@[key])
        } else {
            None
        }
    }

    /// `lookup` gives what is held.
    proof fn lemma_lookup(&self)
        ensures
            forall|key: ConfigKey| #[trigger] self.lookup(key) == self.slot(key),
    {
    }

    /// Settings in which no key is defined.
    pub fn new() -> (config: Self)
        ensures
            config@ == Map::<ConfigKey, EntryView>::empty(),
            forall|key: ConfigKey| config.lookup(key) is None,
    {
        let config = EffectiveConfig { server_ip: None, port: None, password: None };
        proof {
            config.lemma_lookup();
            assert(config@ =~= Map::<ConfigKey, EntryView>::empty());
        }
        config
    }

    /// Puts `entry` in effect for its key, in place of what was there.
    pub fn set(&mut self, entry: ConfigEntry)
        ensures
            final(self)@ == old(self)@.insert(entry.key, entry@),
    {
        proof {
            use_type_invariant(&*self);
        }
        match entry.key {
            ConfigKey::ServerIp => {
                self.server_ip = Some(entry);
            },
            ConfigKey::RconPort => {
                self.port = Some(entry);
            },
            ConfigKey::RconPassword => {
                self.password = Some(entry);
            },
        }
        proof {
            assert(self@ =~= old(self)@.insert(entry.key, entry@));
        }
    }

    /// The entry that is in effect for `key`.
    pub fn get(&self, key: ConfigKey) -> (entry: Option<&ConfigEntry>)
        ensures
            match entry {
                Some(e) => self.lookup(key) == Some(e@) && e.key == key,
                None => self.lookup(key) is None,
            },
    {
        proof {
            use_type_invariant(self);
            self.lemma_lookup();
        }
        match key {
            ConfigKey::ServerIp => self.server_ip.as_ref(),
            ConfigKey::RconPort => self.port.as_ref(),
            ConfigKey::RconPassword => self.password.as_ref(),
        }
    }
}

/// The entry for `key` that stands last in `entries`, if there is one.
pub open spec fn last_defined(entries: Seq<EntryView>, key: ConfigKey) -> Option<EntryView>
    decreases entries.len(),
{
    if entries.len() == 0 {
        None
    } else if entries.last().key == key {
        Some(entries.last())
    } else {
        last_defined(entries.drop_last(), key)
    }
}

/// The settings that the entries put in effect: for each key the entry
/// that stands last.
pub open spec fn in_effect(config: EffectiveConfig, entries: Seq<EntryView>) -> bool {
    forall|key: ConfigKey| #[trigger] config.lookup(key) == last_defined(entries, key)
}

/// An entry at the end of a list is in effect for its key and leaves the
/// other keys as they were.
pub proof fn lemma_last_defined_push(entries: Seq<EntryView>, entry: EntryView, key: ConfigKey)
    ensures
        last_defined(entries.push(entry), key) == if key == entry.key {
            Some(entry)
        } else {
            last_defined(entries, key)
        },
{
    assert(entries.push(entry).drop_last() =~= entries);
}

/// Precedence goes by position: of two lists of entries, one after the
/// other, the second decides every key that it defines, and leaves every
/// other key to the first.
pub proof fn lemma_later_entries_win(
    earlier: Seq<EntryView>,
    later: Seq<EntryView>,
    key: ConfigKey,
)
    ensures
        last_defined(earlier + later, key) == match last_defined(later, key) {
            Some(entry) => Some(entry),
            None => last_defined(earlier, key),
        },
    decreases later.len(),
{
    if later.len() == 0 {
        assert(earlier + later =~= earlier);
    } else {
        assert((earlier + later).drop_last() =~= earlier + later.drop_last());
        assert((earlier + later).last() == later.last());
        lemma_later_entries_win(earlier, later.drop_last(), key);
    }
}

impl EffectiveConfig {
    /// Puts the entries in effect, one after the other, so that a later
    /// entry replaces an earlier one for the same key.
    pub fn merge(&mut self, entries: &Vec<ConfigEntry>)
        ensures
            forall|key: ConfigKey|
                #[trigger] final(self).lookup(key) == match last_defined(
                    entry_views(entries@),
                    key,
                ) {
                    Some(entry) => Some(entry),
                    None => old(self).lookup(key),
                },
    {
        let ghost views = entry_views(entries@);
        for i in 0..entries.len()
            invariant
                views == entry_views(entries@),
                forall|key: ConfigKey|
                    #[trigger] self.lookup(key) == match last_defined(views.take(i as int), key) {
                        Some(entry) => Some(entry),
                        None => old(self).lookup(key),
                    },
        {
            let entry = entries[i].duplicate();
            proof {
                assert(views.take(i + 1) =~= views.take(i as int).push(entry@));
                assert forall|key: ConfigKey|
                    last_defined(views.take(i + 1), key) == if key == entry.key {
                        Some(entry@)
                    } else {
                        last_defined(views.take(i as int), key)
                    } by {
                    lemma_last_defined_push(views.take(i as int), entry@, key);
                }
            }
            let ghost before = *self;
            self.set(entry);
            proof {
                assert forall|key: ConfigKey|
                    #[trigger] self.lookup(key) == if key == entry.key {
                        Some(entry@)
                    } else {
                        before.lookup(key)
                    } by {}
            }
        }
        proof {
            assert(views.take(entries.len() as int) =~= views);
        }
    }
}

/// The value that stands in for a key that no origin defines: `localhost`
/// for the server's address, `25575` for the port, and nothing for the
/// password.
pub open spec fn default_value(key: ConfigKey) -> Option<Seq<char>> {
    match key {
        ConfigKey::ServerIp => Some("localhost"@),
        ConfigKey::RconPort => Some("25575"@),
        ConfigKey::RconPassword => None,
    }
}

/// The value in effect for `key`, or its default where no origin defines
/// the key.
pub open spec fn value_or_default(config: EffectiveConfig, key: ConfigKey) -> Option<Seq<char>> {
    match config.lookup(key) {
        Some(entry) => Some(entry.value),
        None => default_value(key),
    }
}

/// The address that the client connects to: the server's address, a colon,
/// and the port.
pub open spec fn address_of(config: EffectiveConfig) -> Seq<char> {
    value_or_default(config, ConfigKey::ServerIp).unwrap() + seq![':'] + value_or_default(
        config,
        ConfigKey::RconPort,
    ).unwrap()
}

impl EffectiveConfig {
    /// The value in effect for `key`, without any default.
    pub fn get_string(&self, key: ConfigKey) -> (value: Option<String>)
        ensures
            match value {
                Some(v) => self.lookup(key) matches Some(entry) && entry.value == v@,
                None => self.lookup(key) is None,
            },
    {
        match self.get(key) {
            Some(entry) => Some(entry.value.clone()),
            None => None,
        }
    }

    /// The server's address: the one in effect, or `localhost`.
    pub fn server_ip(&self) -> (ip: String)
        ensures
            Some(ip@) == value_or_default(*self, ConfigKey::ServerIp),
    {
        match self.get_string(ConfigKey::ServerIp) {
            Some(ip) => ip,
            None => String::from_str("localhost"),
        }
    }

    /// The port: the one in effect, or `25575`.
    pub fn port(&self) -> (port: String)
        ensures
            Some(port@) == value_or_default(*self, ConfigKey::RconPort),
    {
        match self.get_string(ConfigKey::RconPort) {
            Some(port) => port,
            None => String::from_str("25575"),
        }
    }

    /// The password in effect. There is no default: where no origin
    /// defines it, the caller has to ask for it or give up.
    pub fn password(&self) -> (password: Option<String>)
        ensures
            text_view(password) == value_or_default(*self, ConfigKey::RconPassword),
    {
        self.get_string(ConfigKey::RconPassword)
    }

    /// The address that the client connects to.
    pub fn address(&self) -> (address: String)
        ensures
            address@ == address_of(*self),
    {
        let mut address = self.server_ip();
        address.push(':');
        address.append(self.port().as_str());
        address
    }
}

} // verus!
