//! The process environment as resolution sees it: variable names with their
//! values, and the name under which a setting is looked up there.

use vstd::prelude::*;
use crate::text::{concat, replace_char, replaced, str_eq, to_uppercase, unicode_uppercase};

verus! {

/// What every environment variable of a setting begins with.
pub const ENV_PREFIX: &'static str = "SE_";

/// A key with every `-` turned into `_`.
pub open spec fn underscored(key: Seq<char>) -> Seq<char> {
    Seq::new(
        key.len(),
        |i: int|
            if key[i] == '-' {
                '_'
            } else {
                key[i]
            },
    )
}

/// The environment variable that stands for a setting: its key with every
/// `-` turned into `_`, in upper case, behind the prefix.
pub open spec fn env_name(key: Seq<char>) -> Seq<char> {
    ENV_PREFIX@ + unicode_uppercase(underscored(key))
}

/// Replacing `-` by the one character `_` keeps every other character in
/// its place.
proof fn lemma_replaced_is_underscored(key: Seq<char>)
    ensures
        replaced(key, '-', seq!['_']) == underscored(key),
    decreases key.len(),
{
    if key.len() > 0 {
        lemma_replaced_is_underscored(key.drop_last());
        assert(underscored(key.drop_last()) + seq![underscored(key).last()] =~= underscored(key));
    }
    assert(replaced(key, '-', seq!['_']) =~= underscored(key));
}

/// Derives the name of the environment variable of a setting.
pub fn get_env_name(suffix: &str) -> (name: String)
    ensures
        name@ == env_name(suffix@),
{
    let dashless = replace_char(suffix, '-', "_");
    proof {
        reveal_strlit("_");
        assert("_"@ =~= seq!['_']);
        lemma_replaced_is_underscored(suffix@);
    }
    let suffix_uppercase: String = to_uppercase(dashless.as_str());
    concat(ENV_PREFIX, suffix_uppercase.as_str())
}

/// The variables that a list of name/value pairs defines; of two pairs with
/// one name the later counts.
pub open spec fn pairs_map(pairs: Seq<(String, String)>) -> Map<Seq<char>, Seq<char>>
    decreases pairs.len(),
{
    if pairs.len() == 0 {
        Map::empty()
    } else {
        pairs_map(pairs.drop_last()).insert(pairs.last().0@, pairs.last().1@)
    }
}

/// The text that a lookup of `name` yields: the variable's value, or the
/// empty text where the variable is not set.
pub open spec fn env_text(vars: Map<Seq<char>, Seq<char>>, name: Seq<char>) -> Seq<char> {
    if vars.contains_key(name) {
        vars[name]
    } else {
        Seq::empty()
    }
}

/// A snapshot of the environment variables.
pub struct Environment {
    vars: Vec<(String, String)>,
}

impl View for Environment {
    type V = Map<Seq<char>, Seq<char>>;

    closed spec fn view(&self) -> Map<Seq<char>, Seq<char>> {
        pairs_map(self.vars@)
    }
}

impl Environment {
    /// The environment in which no variable is set.
    pub fn new() -> (env: Environment)
        ensures
            env@ == Map::<Seq<char>, Seq<char>>::empty(),
    {
        Environment { vars: Vec::new() }
    }

    /// Sets a variable, replacing the value it had.
    pub fn set(&mut self, name: &str, value: &str)
        ensures
            final(self)@ == old(self)@.insert(name@, value@),
    {
        let ghost before = self.vars@;
        self.vars.push((name.to_owned(), value.to_owned()));
        proof {
            assert(self.vars@.drop_last() == before);
        }
    }

    /// The value of a variable, `None` where it is not set.
    pub fn get(&self, name: &str) -> (value: Option<String>)
        ensures
            match value {
                Some(v) => self@.contains_key(name@) && self@[name@] == v@,
                None => !self@.contains_key(name@),
            },
    {
        let mut hit: Option<usize> = None;
        let mut i: usize = 0;
        while i < self.vars.len()
            invariant
                i <= self.vars.len(),
                match hit {
                    Some(j) => j < i && pairs_map(self.vars@.take(i as int)).contains_key(name@)
                        && pairs_map(self.vars@.take(i as int))[name@] == self.vars@[j as int].1@,
                    None => !pairs_map(self.vars@.take(i as int)).contains_key(name@),
                },
            decreases self.vars.len() - i,
        {
            proof {
                assert(self.vars@.take(i + 1).drop_last() == self.vars@.take(i as int));
            }
            if str_eq(self.vars[i].0.as_str(), name) {
                hit = Some(i);
            }
            i += 1;
        }
        proof {
            assert(self.vars@.take(i as int) == self.vars@);
        }
        match hit {
            Some(j) => Some(self.vars[j].1.clone()),
            None => None,
        }
    }

    /// The value of a variable, empty where it is not set.
    pub fn var_or_default(&self, name: &str) -> (value: String)
        ensures
            value@ == env_text(self@, name@),
    {
        match self.get(name) {
            Some(v) => v,
            None => String::new(),
        }
    }
}

} // verus!
