//! Reading of INI documents, which is left to the `config` crate.

use vstd::prelude::*;
use config::{FileFormat, Format, Value};

verus! {

/// A value of a parsed document, as the `config` crate holds it. The
/// document itself is such a value: the table of its top level.
#[verifier::external_type_specification]
#[verifier::external_body]
pub struct ExValue(config::Value);

/// What `config` makes of a text that it reads as INI: the text of every
/// key of the document, or the parser's complaint where the text is no INI
/// document. A key is found by its place: the name of its section, or
/// `None` for the top level, and its own name.
pub uninterp spec fn ini_settings(text: Seq<char>) -> Result<
    Map<(Option<Seq<char>>, Seq<char>), Seq<char>>,
    Seq<char>,
>;

/// The settings that a parsed document holds: the text of every key that
/// stands at its top level or in one of its sections, by its place.
pub uninterp spec fn settings_of(root: Value) -> Map<(Option<Seq<char>>, Seq<char>), Seq<char>>;

/// The text at `place` in `settings`, where there is one.
pub open spec fn setting_at(
    settings: Map<(Option<Seq<char>>, Seq<char>), Seq<char>>,
    place: (Option<Seq<char>>, Seq<char>),
) -> Option<Seq<char>> {
    if settings.contains_key(place) {
        Some(settings[place])
    } else {
        None
    }
}

/// Calls `Format::parse` of `config::FileFormat::Ini` on `text`, with no
/// origin. The contract claims that the outcome depends on the text alone:
/// a document whose settings are those of `ini_settings`, or the parser's
/// message. Nothing is claimed of what the settings are.
#[verifier::external_body]
pub(crate) fn parse_ini(text: &str) -> (res: Result<Value, String>)
    ensures
        match res {
            Ok(root) => ini_settings(text@) matches Ok(settings) && settings == settings_of(root),
            Err(message) => ini_settings(text@) matches Err(complaint) && complaint == message@,
        },
{
    FileFormat::Ini.parse(None, text).map(Value::from).map_err(|e| e.to_string())
}

/// Takes the entry `key` out of the table of the document's top level and
/// calls `Value::into_string` on it. The contract claims that this is the
/// document's setting at the top level under `key`, and that there is none
/// where the entry is missing or is a section.
#[verifier::external_body]
pub(crate) fn top_level(root: &Value, key: &str) -> (text: Option<String>)
    ensures
        match text {
            Some(t) => setting_at(settings_of(*root), (None, key@)) == Some(t@),
            None => setting_at(settings_of(*root), (None, key@)) is None,
        },
{
    root.clone().into_table().ok()?.remove(key)?.into_string().ok()
}

/// Takes the entry `section` out of the table of the document's top level,
/// the entry `key` out of the table that `Value::into_table` makes of it,
/// and calls `Value::into_string` on that. The contract claims that this is
/// the document's setting in `section` under `key`, and that there is none
/// where the section or the key is missing.
#[verifier::external_body]
pub(crate) fn in_section(root: &Value, section: &str, key: &str) -> (text: Option<String>)
    ensures
        match text {
            Some(t) => setting_at(settings_of(*root), (Some(section@), key@)) == Some(t@),
            None => setting_at(settings_of(*root), (Some(section@), key@)) is None,
        },
{
    let mut table = root.clone().into_table().ok()?.remove(section)?.into_table().ok()?;
    table.remove(key)?.into_string().ok()
}

} // verus!
