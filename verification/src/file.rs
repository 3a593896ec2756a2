//! The settings that a configuration file supplies.

use vstd::prelude::*;
use crate::entry::{entry_views, push_entry, ConfigEntry, ConfigKey, EntryView};
use crate::error::{ConfigError, ErrorView};
use crate::ini::{in_section, ini_settings, parse_ini, setting_at, top_level};
use crate::text::{str_view, text_view};

verus! {

/// What a document defines for each of the recognised settings.
#[derive(Clone, Debug)]
pub struct FileSettings {
    pub server_ip: Option<String>,
    pub port: Option<String>,
    pub password: Option<String>,
}

/// `FileSettings` as contracts see them.
pub struct FileSettingsView {
    pub server_ip: Option<Seq<char>>,
    pub port: Option<Seq<char>>,
    pub password: Option<Seq<char>>,
}

impl View for FileSettings {
    type V = FileSettingsView;

    open spec fn view(&self) -> FileSettingsView {
        FileSettingsView {
            server_ip: text_view(self.server_ip),
            port: text_view(self.port),
            password: text_view(self.password),
        }
    }
}

/// What became of the attempt to read a configuration file.
#[derive(Clone, Debug)]
pub enum Document {
    /// The file could not be found or read.
    Missing,
    /// The file was read and is no INI document; `detail` is the parser's
    /// complaint.
    Malformed { detail: String },
    /// The file was read and parsed.
    Parsed(FileSettings),
}

/// A `Document` as contracts see it.
pub enum DocumentView {
    Missing,
    Malformed { detail: Seq<char> },
    Parsed(FileSettingsView),
}

impl View for Document {
    type V = DocumentView;

    open spec fn view(&self) -> DocumentView {
        match self {
            Document::Missing => DocumentView::Missing,
            Document::Malformed { detail } => DocumentView::Malformed { detail: detail@ },
            Document::Parsed(settings) => DocumentView::Parsed(settings@),
        }
    }
}

/// The first text where there is one, and else the second.
pub open spec fn or_else(a: Option<Seq<char>>, b: Option<Seq<char>>) -> Option<Seq<char>> {
    match a {
        Some(_) => a,
        None => b,
    }
}

/// The recognised settings among those of a document. A setting is found
/// by its key path: `server-ip` at the top level; `rcon.port` and
/// `rcon.password` as the keys `port` and `password` of the section `rcon`
/// or, where the section does not define them, as top-level keys of the
/// full name. Every other key is ignored.
pub open spec fn recognised(
    settings: Map<(Option<Seq<char>>, Seq<char>), Seq<char>>,
) -> FileSettingsView {
    FileSettingsView {
        server_ip: setting_at(settings, (None, "server-ip"@)),
        port: or_else(
            setting_at(settings, (Some("rcon"@), "port"@)),
            setting_at(settings, (None, "rcon.port"@)),
        ),
        password: or_else(
            setting_at(settings, (Some("rcon"@), "password"@)),
            setting_at(settings, (None, "rcon.password"@)),
        ),
    }
}

/// What reading a file comes to, given its text, or `None` where the file
/// could not be found or read.
pub open spec fn document_of(text: Option<Seq<char>>) -> DocumentView {
    match text {
        None => DocumentView::Missing,
        Some(t) => match ini_settings(t) {
            Ok(settings) => DocumentView::Parsed(recognised(settings)),
            Err(detail) => DocumentView::Malformed { detail },
        },
    }
}

impl Document {
    /// Reads the text of a configuration file as an INI document and picks
    /// the recognised settings out of it. `None` stands for a file that
    /// could not be found or read.
    pub fn read(text: Option<&str>) -> (doc: Document)
        ensures
            doc@ == document_of(str_view(text)),
    {
        match text {
            None => Document::Missing,
            Some(t) => match parse_ini(t) {
                Err(detail) => Document::Malformed { detail },
                Ok(root) => {
                    let server_ip = top_level(&root, "server-ip");
                    let port = match in_section(&root, "rcon", "port") {
                        Some(p) => Some(p),
                        None => top_level(&root, "rcon.port"),
                    };
                    let password = match in_section(&root, "rcon", "password") {
                        Some(p) => Some(p),
                        None => top_level(&root, "rcon.password"),
                    };
                    Document::Parsed(FileSettings { server_ip, port, password })
                },
            },
        }
    }
}

/// What a setting of a file contributes: one entry labelled with the
/// file's origin, or nothing where the file does not define the setting.
pub open spec fn setting_entries(key: ConfigKey, value: Option<Seq<char>>, origin: Seq<char>) -> Seq<
    EntryView,
> {
    match value {
        Some(v) => seq![EntryView { key, value: v, provenance: origin }],
        None => Seq::empty(),
    }
}

/// The entries of a parsed file: one for each recognised setting that it
/// defines.
pub open spec fn settings_entries(settings: FileSettingsView, origin: Seq<char>) -> Seq<EntryView> {
    setting_entries(ConfigKey::ServerIp, settings.server_ip, origin) + setting_entries(
        ConfigKey::RconPort,
        settings.port,
        origin,
    ) + setting_entries(ConfigKey::RconPassword, settings.password, origin)
}

/// What a file contributes. A required file that is missing or malformed
/// is an error. An optional file that is missing contributes nothing, and
/// so does an optional file that is malformed: it is passed over like one
/// that is not there.
pub open spec fn file_outcome(origin: Seq<char>, required: bool, doc: DocumentView) -> Result<
    Seq<EntryView>,
    ErrorView,
> {
    match doc {
        DocumentView::Missing => if required {
            Err(ErrorView::Missing { origin })
        } else {
            Ok(Seq::empty())
        },
        DocumentView::Malformed { detail } => if required {
            Err(ErrorView::Malformed { origin, detail })
        } else {
            Ok(Seq::empty())
        },
        DocumentView::Parsed(settings) => Ok(settings_entries(settings, origin)),
    }
}

/// The outcome of a collection as contracts see it.
pub open spec fn outcome_view(outcome: Result<Vec<ConfigEntry>, ConfigError>) -> Result<
    Seq<EntryView>,
    ErrorView,
> {
    match outcome {
        Ok(entries) => Ok(entry_views(entries@)),
        Err(error) => Err(error@),
    }
}

impl FileSettings {
    /// The entries of the settings, each labelled with `origin`.
    pub fn entries(&self, origin: &str) -> (entries: Vec<ConfigEntry>)
        ensures
            entry_views(entries@) == settings_entries(self@, origin@),
    {
        let mut entries: Vec<ConfigEntry> = Vec::new();
        assert(entry_views(entries@) =~= Seq::<EntryView>::empty());
        if let Some(value) = &self.server_ip {
            push_entry(&mut entries, ConfigEntry::new(ConfigKey::ServerIp, value.as_str(), origin));
        }
        if let Some(value) = &self.port {
            push_entry(&mut entries, ConfigEntry::new(ConfigKey::RconPort, value.as_str(), origin));
        }
        if let Some(value) = &self.password {
            push_entry(
                &mut entries,
                ConfigEntry::new(ConfigKey::RconPassword, value.as_str(), origin),
            );
        }
        assert(entry_views(entries@) =~= settings_entries(self@, origin@));
        entries
    }
}

impl Document {
    /// What the file at `origin` contributes, given what became of reading
    /// it and whether it has to be there.
    pub fn collect(&self, origin: &str, required: bool) -> (outcome: Result<
        Vec<ConfigEntry>,
        ConfigError,
    >)
        ensures
            outcome_view(outcome) == file_outcome(origin@, required, self@),
    {
        match self {
            Document::Missing => {
                if required {
                    Err(ConfigError::Missing { origin: origin.to_owned() })
                } else {
                    let entries: Vec<ConfigEntry> = Vec::new();
                    assert(entry_views(entries@) =~= Seq::<EntryView>::empty());
                    Ok(entries)
                }
            },
            Document::Malformed { detail } => {
                if required {
                    Err(
                        ConfigError::Malformed {
                            origin: origin.to_owned(),
                            detail: detail.clone(),
                        },
                    )
                } else {
                    let entries: Vec<ConfigEntry> = Vec::new();
                    assert(entry_views(entries@) =~= Seq::<EntryView>::empty());
                    Ok(entries)
                }
            },
            Document::Parsed(settings) => Ok(settings.entries(origin)),
        }
    }
}

} // verus!
