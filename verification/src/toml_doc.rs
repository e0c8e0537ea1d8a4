//! The toml calls of the manifest tooling: parsing a document, reading a
//! string or a boolean at a key path, and reading the dependency table of a
//! CLI manifest.

use vstd::prelude::*;

verus! {

/// What `str::parse::<toml::Value>` gives for a text, seen through the
/// error's `Display`: nothing when the text is a TOML document, the error
/// message otherwise.
pub uninterp spec fn toml_parse_error_message(text: Seq<char>) -> Option<Seq<char>>;

/// Whether a text is a TOML document.
pub open spec fn toml_document_parses(text: Seq<char>) -> bool {
    toml_parse_error_message(text) is None
}

/// The message of the error `str::parse::<toml::Value>` reports for a text,
/// or `None` when the text is a TOML document.
/// Trusted: the result is the named outcome for exactly this text.
#[verifier::external_body]
pub(crate) fn toml_parse_error(text: &str) -> (res: Option<String>)
    ensures
        match res {
            Some(m) => toml_parse_error_message(text@) == Some(m@),
            None => toml_parse_error_message(text@) is None,
        },
{
    match text.parse::<toml::Value>() {
        Ok(_) => None,
        Err(e) => Some(e.to_string()),
    }
}

/// The keys of a key path, as plain text.
pub open spec fn key_path(keys: Seq<&str>) -> Seq<Seq<char>> {
    keys.map_values(|k: &str| k@)
}

/// What `str::parse::<toml::Value>` of a text, then `Value::get` with each
/// key in turn, then `Value::as_str`, give: `None` when the text is not
/// TOML, a key is missing, or the value is not a string.
pub uninterp spec fn toml_string_at_path(text: Seq<char>, keys: Seq<Seq<char>>) -> Option<Seq<char>>;

/// The same, ending in `Value::as_bool`.
pub uninterp spec fn toml_bool_at_path(text: Seq<char>, keys: Seq<Seq<char>>) -> Option<bool>;

/// Reads the string at a key path of a TOML document.
/// Trusted: the result is the named reading of exactly this text and these
/// keys, and a result comes only from a text that parses.
#[verifier::external_body]
pub(crate) fn toml_string_at(text: &str, keys: &[&str]) -> (res: Option<String>)
    ensures
        match res {
            Some(s) => toml_string_at_path(text@, key_path(keys@)) == Some(s@),
            None => toml_string_at_path(text@, key_path(keys@)) is None,
        },
        res is Some ==> toml_document_parses(text@),
{
    let doc = text.parse::<toml::Value>().ok()?;
    let mut value = &doc;
    for key in keys {
        value = value.get(*key)?;
    }
    value.as_str().map(String::from)
}

/// Reads the boolean at a key path of a TOML document.
/// Trusted: the result is the named reading of exactly this text and these
/// keys, and a result comes only from a text that parses.
#[verifier::external_body]
pub(crate) fn toml_bool_at(text: &str, keys: &[&str]) -> (res: Option<bool>)
    ensures
        res == toml_bool_at_path(text@, key_path(keys@)),
        res is Some ==> toml_document_parses(text@),
{
    let doc = text.parse::<toml::Value>().ok()?;
    let mut value = &doc;
    for key in keys {
        value = value.get(*key)?;
    }
    value.as_bool()
}

/// What `str::parse::<toml::Value>` of a text, then `Value::get` with each
/// key in turn, then `Value::as_array`, give: the array's entries in order,
/// each read with `Value::as_str`; `None` when the text is not TOML, a key is
/// missing, or the value is not an array.
pub uninterp spec fn toml_array_at_path(text: Seq<char>, keys: Seq<Seq<char>>) -> Option<Seq<Option<Seq<char>>>>;

/// The plain content of a list of optional strings.
pub open spec fn opt_texts(v: Seq<Option<String>>) -> Seq<Option<Seq<char>>> {
    v.map_values(|o: Option<String>| opt_text(o))
}

/// Reads the array at a key path of a TOML document, each entry as a
/// string when it is one.
/// Trusted: the result is the named reading of exactly this text and these
/// keys, and a result comes only from a text that parses.
#[verifier::external_body]
pub(crate) fn toml_array_at(text: &str, keys: &[&str]) -> (res: Option<Vec<Option<String>>>)
    ensures
        match res {
            Some(v) => toml_array_at_path(text@, key_path(keys@)) == Some(opt_texts(v@)),
            None => toml_array_at_path(text@, key_path(keys@)) is None,
        },
        res is Some ==> toml_document_parses(text@),
{
    let doc = text.parse::<toml::Value>().ok()?;
    let mut value = &doc;
    for key in keys {
        value = value.get(*key)?;
    }
    Some(value.as_array()?.iter().map(|v| v.as_str().map(String::from)).collect())
}

/// What kind of value a dependency entry holds.
#[derive(Debug, Clone, Copy, PartialEq, Eq, Structural)]
pub enum TomlEntryKind {
    /// An inline or section table.
    Table,
    /// A plain string.
    Text,
    /// Anything else.
    Other,
}

/// The plain content of a dependency entry: its kind, then the version and
/// the path strings it gives.
pub type TomlDependencyView = (TomlEntryKind, Option<Seq<char>>, Option<Seq<char>>);

/// A dependency entry as a manifest writes it.
#[derive(Debug, Clone)]
pub enum TomlDependency {
    /// An inline or section table, with its `version` and `path` strings.
    Table { version: Option<String>, path: Option<String> },
    /// A plain version string.
    Version(String),
    /// Anything else.
    Other,
}

/// The plain content of an optional string.
pub open spec fn opt_text(o: Option<String>) -> Option<Seq<char>> {
    match o {
        Some(s) => Some(s@),
        None => None,
    }
}

impl View for TomlDependency {
    type V = TomlDependencyView;

    open spec fn view(&self) -> TomlDependencyView {
        match self {
            TomlDependency::Table { version, path } => (TomlEntryKind::Table, opt_text(*version), opt_text(*path)),
            TomlDependency::Version(v) => (TomlEntryKind::Text, Some(v@), None),
            TomlDependency::Other => (TomlEntryKind::Other, None, None),
        }
    }
}

/// The plain content of a list of named entries.
pub open spec fn entries_view(es: Seq<(String, TomlDependency)>) -> Seq<(Seq<char>, TomlDependencyView)> {
    es.map_values(|e: (String, TomlDependency)| (e.0@, e.1@))
}

/// What `str::parse::<toml::Value>` of a text, then `Value::get` of
/// `dependencies` as a table, give: its entries in the table's order, each
/// value reduced to its kind and its `version` and `path` strings; `None`
/// when the text is not TOML or has no such table.
pub uninterp spec fn toml_dependency_table(text: Seq<char>) -> Option<Seq<(Seq<char>, TomlDependencyView)>>;

/// Reads the `[dependencies]` table of a TOML document.
/// Trusted: the entries are the named reading of exactly this text, and a
/// table comes only from a text that parses.
#[verifier::external_body]
pub(crate) fn dependency_entries(text: &str) -> (res: Option<Vec<(String, TomlDependency)>>)
    ensures
        match res {
            Some(v) => toml_dependency_table(text@) == Some(entries_view(v@)),
            None => toml_dependency_table(text@) is None,
        },
        res is Some ==> toml_document_parses(text@),
{
    let doc = text.parse::<toml::Value>().ok()?;
    let toml::Value::Table(table) = doc.get("dependencies")? else { return None };
    let mut entries = Vec::new();
    for (name, value) in table {
        entries.push((name.clone(), match value {
            toml::Value::Table(t) => TomlDependency::Table {
                version: t.get("version").and_then(toml::Value::as_str).map(String::from),
                path: t.get("path").and_then(toml::Value::as_str).map(String::from),
            },
            toml::Value::String(v) => TomlDependency::Version(v.clone()),
            _ => TomlDependency::Other,
        }));
    }
    Some(entries)
}

} // verus!
