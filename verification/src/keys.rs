//! The typed resolvers: each finds the value of one setting in the table,
//! then in the environment, and falls back to a default.

use vstd::prelude::*;
use toml::Table;
use crate::cache::{check_cache_path, settled_context, settled_value, ContextView, ResolutionContext};
use crate::environment::{env_name, env_text, get_env_name, Environment};
use crate::error::{plain_result, ConfigError, ConfigErrorView};
use crate::table::{table_entries, table_get, ConfigValue, ConfigValueView};
use crate::text::{decimal_u64, key_names, parse_bool, parse_u64, truth_value};

verus! {

/// What one candidate key yields as a text: the table's value where the table
/// has the key, else the value of the key's environment variable, empty
/// where that is not set. `None` where the table's value is not a text.
pub open spec fn candidate_text(
    entries: Map<Seq<char>, ConfigValueView>,
    vars: Map<Seq<char>, Seq<char>>,
    key: Seq<char>,
) -> Option<Seq<char>> {
    if entries.contains_key(key) {
        match entries[key] {
            ConfigValueView::Text(s) => Some(s),
            _ => None,
        }
    } else {
        Some(env_text(vars, env_name(key)))
    }
}

/// How the search through a list of candidate keys ends.
pub enum TextOutcome {
    /// `key` is the first candidate with a text that is not empty.
    Found { key: Seq<char>, value: Seq<char> },
    /// Every candidate yields the empty text.
    Absent,
    /// The candidates before `key` yield the empty text, and the table holds
    /// under `key` a value that is no text.
    WrongType { key: Seq<char> },
}

/// The search through the candidate keys, first to last.
pub open spec fn first_text(
    entries: Map<Seq<char>, ConfigValueView>,
    vars: Map<Seq<char>, Seq<char>>,
    keys: Seq<Seq<char>>,
) -> TextOutcome
    decreases keys.len(),
{
    if keys.len() == 0 {
        TextOutcome::Absent
    } else {
        match candidate_text(entries, vars, keys[0]) {
            None => TextOutcome::WrongType { key: keys[0] },
            Some(value) => if value.len() > 0 {
                TextOutcome::Found { key: keys[0], value }
            } else {
                first_text(entries, vars, keys.skip(1))
            },
        }
    }
}

/// The value of a text setting.
pub open spec fn resolved_text(
    entries: Map<Seq<char>, ConfigValueView>,
    vars: Map<Seq<char>, Seq<char>>,
    keys: Seq<Seq<char>>,
    default_value: Seq<char>,
) -> Result<Seq<char>, ConfigErrorView> {
    match first_text(entries, vars, keys) {
        TextOutcome::Found { key, value } => Ok(settled_value(key, value, default_value)),
        TextOutcome::Absent => Ok(default_value),
        TextOutcome::WrongType { key } => Err(ConfigErrorView::WrongType(key)),
    }
}

/// The context that resolving a text setting leaves behind.
pub open spec fn resolved_context(
    entries: Map<Seq<char>, ConfigValueView>,
    vars: Map<Seq<char>, Seq<char>>,
    keys: Seq<Seq<char>>,
    default_value: Seq<char>,
    ctx: ContextView,
) -> ContextView {
    match first_text(entries, vars, keys) {
        TextOutcome::Found { key, value } => settled_context(
            ctx,
            key,
            settled_value(key, value, default_value),
        ),
        _ => ctx,
    }
}

/// A signed 64-bit number read as an unsigned one: a negative number wraps
/// around.
pub open spec fn as_unsigned(i: i64) -> u64 {
    if i >= 0 {
        i as u64
    } else {
        (i + 0x1_0000_0000_0000_0000) as u64
    }
}

/// The value of a whole-number setting.
pub open spec fn resolved_integer(
    entries: Map<Seq<char>, ConfigValueView>,
    vars: Map<Seq<char>, Seq<char>>,
    key: Seq<char>,
    default_value: u64,
) -> Result<u64, ConfigErrorView> {
    if entries.contains_key(key) {
        match entries[key] {
            ConfigValueView::Integer(i) => Ok(as_unsigned(i)),
            _ => Err(ConfigErrorView::WrongType(key)),
        }
    } else {
        match decimal_u64(env_text(vars, env_name(key))) {
            Some(value) => Ok(value),
            None => Ok(default_value),
        }
    }
}

/// The value of a yes/no setting.
pub open spec fn resolved_boolean(
    entries: Map<Seq<char>, ConfigValueView>,
    vars: Map<Seq<char>, Seq<char>>,
    key: Seq<char>,
    default_value: bool,
) -> Result<bool, ConfigErrorView> {
    if entries.contains_key(key) {
        match entries[key] {
            ConfigValueView::Boolean(b) => Ok(b),
            _ => Err(ConfigErrorView::WrongType(key)),
        }
    } else {
        match truth_value(env_text(vars, env_name(key))) {
            Some(value) => Ok(value),
            None => Ok(default_value),
        }
    }
}

/// A text result over plain sequences of characters.
pub open spec fn text_result(r: Result<String, ConfigError>) -> Result<Seq<char>, ConfigErrorView> {
    match r {
        Ok(s) => Ok(s@),
        Err(e) => Err(e@),
    }
}

/// A text setting: its candidate keys, the most specific first, and its
/// default.
pub struct StringKey<'a>(pub Vec<&'a str>, pub &'a str);

impl StringKey<'_> {
    /// Resolves the setting. The first candidate key with a text that is not
    /// empty decides; where none has one, the default is the value. A key that
    /// the table holds is not looked up in the environment.
    pub fn get_value(&self, table: &Table, vars: &Environment, ctx: &mut ResolutionContext) -> (value:
        Result<String, ConfigError>)
        ensures
            text_result(value) == resolved_text(
                table_entries(*table),
                vars@,
                key_names(self.0@),
                self.1@,
            ),
            final(ctx)@ == resolved_context(
                table_entries(*table),
                vars@,
                key_names(self.0@),
                self.1@,
                old(ctx)@,
            ),
    {
        let ghost entries = table_entries(*table);
        let ghost names = key_names(self.0@);
        let default_value = self.1.to_owned();
        let mut i: usize = 0;
        proof {
            assert(names.skip(0) == names);
        }
        while i < self.0.len()
            invariant
                i <= self.0.len(),
                entries == table_entries(*table),
                names == key_names(self.0@),
                default_value@ == self.1@,
                *ctx == *old(ctx),
                first_text(entries, vars@, names) == first_text(entries, vars@, names.skip(i as int)),
            decreases self.0.len() - i,
        {
            let key: &str = self.0[i];
            proof {
                assert(names.skip(i as int)[0] == key@);
                assert(names.skip(i as int).skip(1) == names.skip(i + 1));
            }
            let result = match table_get(table, key) {
                Some(ConfigValue::Text(text)) => text,
                Some(_) => {
                    return Err(ConfigError::WrongType(key.to_owned()));
                },
                None => vars.var_or_default(get_env_name(key).as_str()),
            };
            if !result.as_str().is_empty() {
                return Ok(check_cache_path(ctx, key, result, default_value));
            }
            i += 1;
        }
        Ok(default_value)
    }
}

/// A whole-number setting: its key and its default.
pub struct IntegerKey<'a>(pub &'a str, pub u64);

impl IntegerKey<'_> {
    /// Resolves the setting: the table's number where the table has the key,
    /// else the number that the environment variable writes, else the default.
    pub fn get_value(&self, table: &Table, vars: &Environment) -> (value: Result<u64, ConfigError>)
        ensures
            plain_result(value) == resolved_integer(table_entries(*table), vars@, self.0@, self.1),
    {
        let key = self.0;
        match table_get(table, key) {
            Some(ConfigValue::Integer(i)) => {
                assert(i as u64 == as_unsigned(i)) by (bit_vector);
                Ok(i as u64)
            },
            Some(_) => Err(ConfigError::WrongType(key.to_owned())),
            None => match parse_u64(vars.var_or_default(get_env_name(key).as_str()).as_str()) {
                Some(value) => Ok(value),
                None => Ok(self.1),
            },
        }
    }
}

/// A yes/no setting: its key and its default.
pub struct BooleanKey<'a>(pub &'a str, pub bool);

impl BooleanKey<'_> {
    /// Resolves the setting: the table's truth value where the table has the
    /// key, else the one that the environment variable writes, else the
    /// default.
    pub fn get_value(&self, table: &Table, vars: &Environment) -> (value: Result<bool, ConfigError>)
        ensures
            plain_result(value) == resolved_boolean(table_entries(*table), vars@, self.0@, self.1),
    {
        let key = self.0;
        match table_get(table, key) {
            Some(ConfigValue::Boolean(b)) => Ok(b),
            Some(_) => Err(ConfigError::WrongType(key.to_owned())),
            None => match parse_bool(vars.var_or_default(get_env_name(key).as_str()).as_str()) {
                Some(value) => Ok(value),
                None => Ok(self.1),
            },
        }
    }
}

} // verus!
