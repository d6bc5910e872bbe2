//! The persisted key/value table, as the TOML library holds it.

use vstd::prelude::*;
use toml::Table;

verus! {

/// `toml::map::Map`, the map that a TOML table is; its contents are seen
/// through [`table_entries`] alone.
#[verifier::external_type_specification]
#[verifier::external_body]
#[verifier::reject_recursive_types(K)]
#[verifier::reject_recursive_types(V)]
pub struct ExMap<K, V>(toml::map::Map<K, V>);

/// `toml::Value`, a value of a TOML table.
#[verifier::external_type_specification]
#[verifier::external_body]
pub struct ExValue(toml::Value);

/// What the table holds under one key, as far as the settings read it.
#[derive(Debug)]
pub enum ConfigValue {
    Text(String),
    Integer(i64),
    Boolean(bool),
    /// A value of any other kind: a float, a date, an array or a nested table.
    Other,
}

/// A value of the table over plain sequences of characters.
pub enum ConfigValueView {
    Text(Seq<char>),
    Integer(i64),
    Boolean(bool),
    Other,
}

impl View for ConfigValue {
    type V = ConfigValueView;

    open spec fn view(&self) -> ConfigValueView {
        match self {
            ConfigValue::Text(s) => ConfigValueView::Text(s@),
            ConfigValue::Integer(i) => ConfigValueView::Integer(*i),
            ConfigValue::Boolean(b) => ConfigValueView::Boolean(*b),
            ConfigValue::Other => ConfigValueView::Other,
        }
    }
}

/// The contents of a table: each key at its top level with the value under it.
pub uninterp spec fn table_entries(t: Table) -> Map<Seq<char>, ConfigValueView>;

/// What a text holds when read as a TOML document: the entries of its top
/// level, or nothing where the text is no such document.
pub uninterp spec fn toml_document(text: Seq<char>) -> Option<Map<Seq<char>, ConfigValueView>>;

/// The table without entries.
pub open spec fn no_entries() -> Map<Seq<char>, ConfigValueView> {
    Map::empty()
}

/// `toml::map::Map::new`: a table without entries.
#[verifier::external_body]
fn empty_table() -> (t: Table)
    ensures
        table_entries(t) == no_entries(),
{
    Table::new()
}

/// `FromStr` of `toml::Table`: the table read from a document, nothing where
/// the parser rejects the text. What is read depends on the text alone.
#[verifier::external_body]
fn parse_table(text: &str) -> (parsed: Option<Table>)
    ensures
        match parsed {
            Some(t) => toml_document(text@) == Some(table_entries(t)),
            None => toml_document(text@) is None,
        },
{
    text.parse::<Table>().ok()
}

/// `toml::map::Map::get`: the value under a key, nothing where the key is
/// absent. The value comes back by its kind.
#[verifier::external_body]
pub(crate) fn table_get(t: &Table, key: &str) -> (found: Option<ConfigValue>)
    ensures
        match found {
            Some(v) => table_entries(*t).contains_key(key@) && table_entries(*t)[key@] == v@,
            None => !table_entries(*t).contains_key(key@),
        },
{
    match t.get(key) {
        None => None,
        Some(toml::Value::String(s)) => Some(ConfigValue::Text(s.clone())),
        Some(toml::Value::Integer(i)) => Some(ConfigValue::Integer(*i)),
        Some(toml::Value::Boolean(b)) => Some(ConfigValue::Boolean(*b)),
        Some(_) => Some(ConfigValue::Other),
    }
}

/// The entries that a configuration file's text stands for. A file that could
/// not be read, or whose text is no TOML document, stands for no entries.
pub open spec fn config_entries(text: Option<Seq<char>>) -> Map<Seq<char>, ConfigValueView> {
    match text {
        Some(t) => match toml_document(t) {
            Some(entries) => entries,
            None => no_entries(),
        },
        None => no_entries(),
    }
}

/// Builds the table from the text of the configuration file, `None` standing
/// for a file that is missing or unreadable. Every failure gives the empty
/// table.
pub fn get_config(text: Option<&str>) -> (table: Table)
    ensures
        table_entries(table) == config_entries(
            match text {
                Some(t) => Some(t@),
                None => None,
            },
        ),
{
    match text {
        Some(t) => match parse_table(t) {
            Some(table) => table,
            None => empty_table(),
        },
        None => empty_table(),
    }
}

} // verus!
