//! The startup configuration: a TOML document whose `config` table holds the
//! gateway `token` and the legacy command `prefix`.
use vstd::prelude::*;

verus! {

#[verifier::external_type_specification]
#[verifier::external_body]
#[verifier::reject_recursive_types(K)]
#[verifier::reject_recursive_types(V)]
pub struct ExTomlMap<K, V>(toml::map::Map<K, V>);

#[verifier::external_type_specification]
#[verifier::external_body]
pub struct ExTomlValue(toml::Value);

#[verifier::external_type_specification]
#[verifier::external_body]
pub struct ExTomlError(toml::de::Error);

/// The table that the `toml` parser reads out of a text, or `None` where the
/// text is not a TOML document.
pub uninterp spec fn toml_document(text: Seq<char>) -> Option<toml::Table>;

/// The entries of a TOML table, by key.
pub uninterp spec fn table_entries(t: toml::Table) -> Map<Seq<char>, toml::Value>;

/// The string that a TOML value holds, where it is a string.
pub uninterp spec fn value_text(v: toml::Value) -> Option<Seq<char>>;

/// The table that a TOML value holds, where it is a table.
pub uninterp spec fn value_table(v: toml::Value) -> Option<toml::Table>;

/// Relies on `toml::from_str` at the type `toml::Table`: it parses a whole
/// document into its top-level table, and fails on text that is not TOML.
#[verifier::external_body]
fn parse_document(text: &str) -> (r: Result<toml::Table, toml::de::Error>)
    ensures
        match r {
            Ok(t) => toml_document(text@) == Some(t),
            Err(_) => toml_document(text@) is None,
        },
{
    toml::from_str::<toml::Table>(text)
}

/// Relies on `toml::map::Map::get`: the value stored under `key`, if any.
#[verifier::external_body]
fn table_get<'a>(t: &'a toml::Table, key: &str) -> (r: Option<&'a toml::Value>)
    ensures
        match r {
            Some(v) => table_entries(*t).dom().contains(key@) && table_entries(*t)[key@] == *v,
            None => !table_entries(*t).dom().contains(key@),
        },
{
    t.get(key)
}

/// Relies on `toml::Value::as_str`: the string of a `Value::String`, `None`
/// for every other kind of value.
#[verifier::external_body]
fn value_as_str<'a>(v: &'a toml::Value) -> (r: Option<&'a str>)
    ensures
        match r {
            Some(s) => value_text(*v) == Some(s@),
            None => value_text(*v) is None,
        },
{
    v.as_str()
}

/// Relies on `toml::Value::as_table`: the table of a `Value::Table`, `None`
/// for every other kind of value.
#[verifier::external_body]
fn value_as_table<'a>(v: &'a toml::Value) -> (r: Option<&'a toml::Table>)
    ensures
        match r {
            Some(t) => value_table(*v) == Some(*t),
            None => value_table(*v) is None,
        },
{
    v.as_table()
}

/// The settings the bot needs to connect and to recognise prefix commands.
pub struct Config {
    pub token: String,
    pub prefix: String,
}

/// Why a configuration could not be had.
#[derive(Debug, Clone, Copy, PartialEq, Eq, Structural)]
pub enum ConfigError {
    /// The configuration file does not exist.
    Missing,
    /// The file is not TOML, or lacks a string `token` or `prefix` in its
    /// `config` table.
    Malformed,
}

/// The string stored under `key` in the table stored under `section`.
pub open spec fn section_text(doc: toml::Table, section: Seq<char>, key: Seq<char>) -> Option<
    Seq<char>,
> {
    let top = table_entries(doc);
    if top.dom().contains(section) {
        match value_table(top[section]) {
            Some(inner) => {
                let entries = table_entries(inner);
                if entries.dom().contains(key) {
                    value_text(entries[key])
                } else {
                    None
                }
            },
            None => None,
        }
    } else {
        None
    }
}

/// The token and prefix that a configuration text states, or `None` where it
/// does not state both.
pub open spec fn config_of(text: Seq<char>) -> Option<(Seq<char>, Seq<char>)> {
    match toml_document(text) {
        Some(doc) => match (
            section_text(doc, "config"@, "token"@),
            section_text(doc, "config"@, "prefix"@),
        ) {
            (Some(token), Some(prefix)) => Some((token, prefix)),
            _ => None,
        },
        None => None,
    }
}

fn section_str<'a>(doc: &'a toml::Table, section: &str, key: &str) -> (r: Option<&'a str>)
    ensures
        match r {
            Some(s) => section_text(*doc, section@, key@) == Some(s@),
            None => section_text(*doc, section@, key@) is None,
        },
{
    match table_get(doc, section) {
        Some(v) => match value_as_table(v) {
            Some(inner) => match table_get(inner, key) {
                Some(entry) => value_as_str(entry),
                None => None,
            },
            None => None,
        },
        None => None,
    }
}

/// Reads the configuration out of the text of a configuration file. Extra
/// keys are ignored; nothing is defaulted.
pub fn parse_config(text: &str) -> (r: Result<Config, ConfigError>)
    ensures
        match r {
            Ok(c) => config_of(text@) == Some((c.token@, c.prefix@)),
            Err(e) => config_of(text@) is None && e == ConfigError::Malformed,
        },
{
    let doc = match parse_document(text) {
        Ok(doc) => doc,
        Err(_) => return Err(ConfigError::Malformed),
    };
    let token = section_str(&doc, "config", "token");
    let prefix = section_str(&doc, "config", "prefix");
    match (token, prefix) {
        (Some(token), Some(prefix)) => Ok(
            Config { token: token.to_string(), prefix: prefix.to_string() },
        ),
        _ => Err(ConfigError::Malformed),
    }
}

} // verus!
