//! The cache path: the directory that holds the configuration file. It is
//! itself a setting, so it is kept in a context that every resolution is
//! handed, and is fixed by the first resolution that finds it.

use vstd::prelude::*;
use crate::text::str_eq;

verus! {

/// The name of the configuration file inside the cache path.
pub const CONFIG_FILE: &'static str = "selenium-manager-config.toml";

/// The key of the setting that names the cache path.
pub const CACHE_PATH_KEY: &'static str = "cache-path";

/// The state that resolution shares between its lookups.
pub struct ResolutionContext {
    default_folder: String,
    cache_path: String,
}

/// A context over plain sequences of characters.
pub struct ContextView {
    /// The cache directory that the platform offers where none was chosen.
    pub default_folder: Seq<char>,
    /// The cache path established so far; empty where there is none.
    pub cache_path: Seq<char>,
}

impl ContextView {
    /// The cache path in force: the established one, else the platform's.
    pub open spec fn current(self) -> Seq<char> {
        if self.cache_path.len() > 0 {
            self.cache_path
        } else {
            self.default_folder
        }
    }

    /// The context after `cache_path` has been written to it.
    pub open spec fn with_cache_path(self, cache_path: Seq<char>) -> ContextView {
        ContextView { default_folder: self.default_folder, cache_path }
    }
}

impl View for ResolutionContext {
    type V = ContextView;

    closed spec fn view(&self) -> ContextView {
        ContextView { default_folder: self.default_folder@, cache_path: self.cache_path@ }
    }
}

impl ResolutionContext {
    /// A fresh context: the cache path starts as the platform's default folder.
    pub fn new(default_folder: &str) -> (ctx: ResolutionContext)
        ensures
            ctx@.default_folder == default_folder@,
            ctx@.cache_path == default_folder@,
    {
        ResolutionContext {
            default_folder: default_folder.to_owned(),
            cache_path: default_folder.to_owned(),
        }
    }
}

/// The value that a resolution settles on once a candidate key has yielded
/// `found`. For every key but the cache path's it is `found`. For the cache
/// path an established value, handed in as `default_value`, stays in force;
/// only where there is none does `found` win.
pub open spec fn settled_value(key: Seq<char>, found: Seq<char>, default_value: Seq<char>) -> Seq<
    char,
> {
    if key == CACHE_PATH_KEY@ && default_value.len() > 0 {
        default_value
    } else {
        found
    }
}

/// The context after a resolution has settled on `value` for `key`: the cache
/// path's key writes the value back, any other key leaves the context alone.
pub open spec fn settled_context(ctx: ContextView, key: Seq<char>, value: Seq<char>) -> ContextView {
    if key == CACHE_PATH_KEY@ {
        ctx.with_cache_path(value)
    } else {
        ctx
    }
}

/// The cache path in force.
pub fn read_cache_path(ctx: &ResolutionContext) -> (cache_path: String)
    ensures
        cache_path@ == ctx@.current(),
{
    if !ctx.cache_path.as_str().is_empty() {
        ctx.cache_path.clone()
    } else {
        ctx.default_folder.clone()
    }
}

/// Establishes a cache path.
pub fn write_cache_path(ctx: &mut ResolutionContext, cache_path: String)
    ensures
        final(ctx)@ == old(ctx)@.with_cache_path(cache_path@),
{
    ctx.cache_path = cache_path;
}

/// Settles the value found for `key` and, for the cache path's key, writes
/// it back into the context.
pub fn check_cache_path(
    ctx: &mut ResolutionContext,
    key: &str,
    value_in_config_or_env: String,
    default_value: String,
) -> (return_value: String)
    ensures
        return_value@ == settled_value(key@, value_in_config_or_env@, default_value@),
        final(ctx)@ == settled_context(old(ctx)@, key@, return_value@),
{
    let is_cache_path = str_eq(key, CACHE_PATH_KEY);
    let return_value = if is_cache_path {
        if default_value.as_str().is_empty() {
            value_in_config_or_env
        } else {
            default_value
        }
    } else {
        value_in_config_or_env
    };
    if is_cache_path {
        write_cache_path(ctx, return_value.clone());
    }
    return_value
}

} // verus!
