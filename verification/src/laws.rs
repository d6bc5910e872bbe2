//! What holds of resolution whatever the sources hold.

use vstd::prelude::*;
use crate::cache::{ContextView, CACHE_PATH_KEY};
use crate::config::{
    assembled, assembled_context, lemma_all_succeed, lemma_no_failure, lemma_texts_context_step,
    outcomes, resolved_texts, text_settings, texts_context, ManagerConfigView, PATH_PREFIX,
    REQUEST_TIMEOUT_SEC, TTL_BROWSERS_SEC, TTL_DRIVERS_SEC, VERSION_PREFIX,
};
use crate::environment::{env_name, env_text};
use crate::error::ConfigErrorView;
use crate::keys::{
    candidate_text, first_text, resolved_boolean, resolved_context, resolved_integer,
    resolved_text, TextOutcome,
};
use crate::table::ConfigValueView;
use crate::text::{decimal_u64, truth_value};

verus! {

/// Where none of the candidate keys yields a text, the search finds nothing.
pub proof fn lemma_nothing_found(
    entries: Map<Seq<char>, ConfigValueView>,
    vars: Map<Seq<char>, Seq<char>>,
    keys: Seq<Seq<char>>,
)
    requires
        forall|i: int| 0 <= i < keys.len() ==> !entries.contains_key(#[trigger] keys[i]),
        forall|i: int|
            0 <= i < keys.len() ==> env_text(vars, env_name(#[trigger] keys[i])).len() == 0,
    ensures
        first_text(entries, vars, keys) == TextOutcome::Absent,
    decreases keys.len(),
{
    if keys.len() > 0 {
        assert(!entries.contains_key(keys[0]));
        assert(env_text(vars, env_name(keys[0])).len() == 0);
        assert forall|i: int| 0 <= i < keys.skip(1).len() implies !entries.contains_key(
            #[trigger] keys.skip(1)[i],
        ) && env_text(vars, env_name(keys.skip(1)[i])).len() == 0 by {
            assert(keys.skip(1)[i] == keys[i + 1]);
        }
        lemma_nothing_found(entries, vars, keys.skip(1));
    }
}

/// The candidate keys are tried first to last: the first that yields a text
/// that is not empty decides, whatever the later candidates yield.
pub proof fn lemma_first_candidate_with_text_wins(
    entries: Map<Seq<char>, ConfigValueView>,
    vars: Map<Seq<char>, Seq<char>>,
    keys: Seq<Seq<char>>,
    i: int,
)
    requires
        0 <= i < keys.len(),
        forall|j: int|
            0 <= j < i ==> candidate_text(entries, vars, #[trigger] keys[j]) == Some(
                Seq::<char>::empty(),
            ),
        candidate_text(entries, vars, keys[i]) matches Some(value) && value.len() > 0,
    ensures
        first_text(entries, vars, keys) == (TextOutcome::Found {
            key: keys[i],
            value: candidate_text(entries, vars, keys[i])->Some_0,
        }),
    decreases i,
{
    if i > 0 {
        assert(candidate_text(entries, vars, keys[0]) == Some(Seq::<char>::empty()));
        assert(keys.skip(1)[i - 1] == keys[i]);
        assert forall|j: int| 0 <= j < i - 1 implies candidate_text(
            entries,
            vars,
            #[trigger] keys.skip(1)[j],
        ) == Some(Seq::<char>::empty()) by {
            assert(keys.skip(1)[j] == keys[j + 1]);
        }
        lemma_first_candidate_with_text_wins(entries, vars, keys.skip(1), i - 1);
    }
}

/// With an empty table and none of the candidates' environment variables
/// set, a text setting resolves to its default and leaves the context as it
/// was.
pub proof fn lemma_text_default_without_sources(
    vars: Map<Seq<char>, Seq<char>>,
    keys: Seq<Seq<char>>,
    default_value: Seq<char>,
    ctx: ContextView,
)
    requires
        forall|i: int| 0 <= i < keys.len() ==> !vars.contains_key(env_name(#[trigger] keys[i])),
    ensures
        resolved_text(Map::empty(), vars, keys, default_value) == Ok::<
            Seq<char>,
            ConfigErrorView,
        >(default_value),
        resolved_context(Map::empty(), vars, keys, default_value, ctx) == ctx,
{
    lemma_nothing_found(Map::empty(), vars, keys);
}

/// With an empty table and the setting's environment variable not set, a
/// whole-number setting resolves to its default.
pub proof fn lemma_integer_default_without_sources(
    vars: Map<Seq<char>, Seq<char>>,
    key: Seq<char>,
    default_value: u64,
)
    requires
        !vars.contains_key(env_name(key)),
    ensures
        resolved_integer(Map::empty(), vars, key, default_value) == Ok::<u64, ConfigErrorView>(
            default_value,
        ),
{
}

/// With an empty table and the setting's environment variable not set, a
/// yes/no setting resolves to its default.
pub proof fn lemma_boolean_default_without_sources(
    vars: Map<Seq<char>, Seq<char>>,
    key: Seq<char>,
    default_value: bool,
)
    requires
        !vars.contains_key(env_name(key)),
    ensures
        resolved_boolean(Map::empty(), vars, key, default_value) == Ok::<bool, ConfigErrorView>(
            default_value,
        ),
{
    reveal_strlit("true");
    reveal_strlit("false");
    assert("true"@.len() == 4);
    assert("false"@.len() == 5);
    assert(env_text(vars, env_name(key)).len() == 0);
}

/// A text that is not empty, held by the table under the first candidate
/// key, is the setting's value, whatever the table holds under the later
/// candidates and whatever the environment holds. The cache path with a
/// value already in force is the one setting of which this does not hold.
pub proof fn lemma_first_key_in_table_wins(
    entries: Map<Seq<char>, ConfigValueView>,
    vars: Map<Seq<char>, Seq<char>>,
    keys: Seq<Seq<char>>,
    default_value: Seq<char>,
    value: Seq<char>,
)
    requires
        keys.len() > 0,
        entries.contains_key(keys[0]),
        entries[keys[0]] == ConfigValueView::Text(value),
        value.len() > 0,
        !(keys[0] == CACHE_PATH_KEY@ && default_value.len() > 0),
    ensures
        resolved_text(entries, vars, keys, default_value) == Ok::<Seq<char>, ConfigErrorView>(
            value,
        ),
{
}

/// Where the table holds none of the candidate keys and the environment
/// variable of the first candidate is set to a text that is not empty, that
/// text is the setting's value, whatever the variables of the later
/// candidates hold. The cache path with a value already in force is the one
/// setting of which this does not hold.
pub proof fn lemma_first_key_in_environment_wins(
    entries: Map<Seq<char>, ConfigValueView>,
    vars: Map<Seq<char>, Seq<char>>,
    keys: Seq<Seq<char>>,
    default_value: Seq<char>,
)
    requires
        keys.len() > 0,
        forall|i: int| 0 <= i < keys.len() ==> !entries.contains_key(#[trigger] keys[i]),
        vars.contains_key(env_name(keys[0])),
        vars[env_name(keys[0])].len() > 0,
        !(keys[0] == CACHE_PATH_KEY@ && default_value.len() > 0),
    ensures
        resolved_text(entries, vars, keys, default_value) == Ok::<Seq<char>, ConfigErrorView>(
            vars[env_name(keys[0])],
        ),
{
    assert(!entries.contains_key(keys[0]));
}

/// A number held by the table is the setting's value, whatever the
/// environment holds. A negative number is left out: it wraps around.
pub proof fn lemma_integer_in_table_wins(
    entries: Map<Seq<char>, ConfigValueView>,
    vars: Map<Seq<char>, Seq<char>>,
    key: Seq<char>,
    default_value: u64,
    value: i64,
)
    requires
        entries.contains_key(key),
        entries[key] == ConfigValueView::Integer(value),
        value >= 0,
    ensures
        resolved_integer(entries, vars, key, default_value) == Ok::<u64, ConfigErrorView>(
            value as u64,
        ),
{
}

/// A truth value held by the table is the setting's value, whatever the
/// environment holds.
pub proof fn lemma_boolean_in_table_wins(
    entries: Map<Seq<char>, ConfigValueView>,
    vars: Map<Seq<char>, Seq<char>>,
    key: Seq<char>,
    default_value: bool,
    value: bool,
)
    requires
        entries.contains_key(key),
        entries[key] == ConfigValueView::Boolean(value),
    ensures
        resolved_boolean(entries, vars, key, default_value) == Ok::<bool, ConfigErrorView>(value),
{
}

/// Where the table does not hold the key and the environment variable's
/// value does not read as a number, a whole-number setting resolves to its
/// default: there is no failure.
pub proof fn lemma_unreadable_integer_gives_default(
    entries: Map<Seq<char>, ConfigValueView>,
    vars: Map<Seq<char>, Seq<char>>,
    key: Seq<char>,
    default_value: u64,
)
    requires
        !entries.contains_key(key),
        decimal_u64(env_text(vars, env_name(key))) is None,
    ensures
        resolved_integer(entries, vars, key, default_value) == Ok::<u64, ConfigErrorView>(
            default_value,
        ),
{
}

/// Where the table does not hold the key and the environment variable's
/// value does not read as a truth value, a yes/no setting resolves to its
/// default: there is no failure.
pub proof fn lemma_unreadable_boolean_gives_default(
    entries: Map<Seq<char>, ConfigValueView>,
    vars: Map<Seq<char>, Seq<char>>,
    key: Seq<char>,
    default_value: bool,
)
    requires
        !entries.contains_key(key),
        truth_value(env_text(vars, env_name(key))) is None,
    ensures
        resolved_boolean(entries, vars, key, default_value) == Ok::<bool, ConfigErrorView>(
            default_value,
        ),
{
}

/// A key that the search finds is one of the candidates.
pub proof fn lemma_found_key_is_candidate(
    entries: Map<Seq<char>, ConfigValueView>,
    vars: Map<Seq<char>, Seq<char>>,
    keys: Seq<Seq<char>>,
)
    ensures
        first_text(entries, vars, keys) matches TextOutcome::Found { key, value } ==> keys.contains(
            key,
        ) && value.len() > 0,
    decreases keys.len(),
{
    if keys.len() > 0 {
        lemma_found_key_is_candidate(entries, vars, keys.skip(1));
        match first_text(entries, vars, keys.skip(1)) {
            TextOutcome::Found { key, value } => {
                let i = choose|i: int| 0 <= i < keys.skip(1).len() && keys.skip(1)[i] == key;
                assert(keys[i + 1] == key);
            },
            _ => {},
        }
    }
}

/// A setting none of whose candidate keys is the cache path's leaves the
/// context as it was.
pub proof fn lemma_other_settings_keep_context(
    entries: Map<Seq<char>, ConfigValueView>,
    vars: Map<Seq<char>, Seq<char>>,
    keys: Seq<Seq<char>>,
    default_value: Seq<char>,
    ctx: ContextView,
)
    requires
        !keys.contains(CACHE_PATH_KEY@),
    ensures
        resolved_context(entries, vars, keys, default_value, ctx) == ctx,
{
    lemma_found_key_is_candidate(entries, vars, keys);
}

/// Once a cache path is in force, resolving the cache path's setting gives
/// that path again and keeps it in force, whatever the table and the
/// environment now hold for it, as long as the table's value is a text.
pub proof fn lemma_cache_path_stays(
    entries: Map<Seq<char>, ConfigValueView>,
    vars: Map<Seq<char>, Seq<char>>,
    ctx: ContextView,
)
    requires
        ctx.current().len() > 0,
        entries.contains_key(CACHE_PATH_KEY@) ==> entries[CACHE_PATH_KEY@] is Text,
    ensures
        resolved_text(entries, vars, seq![CACHE_PATH_KEY@], ctx.current()) == Ok::<
            Seq<char>,
            ConfigErrorView,
        >(ctx.current()),
        resolved_context(
            entries,
            vars,
            seq![CACHE_PATH_KEY@],
            ctx.current(),
            ctx,
        ).current() == ctx.current(),
{
    let keys = seq![CACHE_PATH_KEY@];
    assert(keys.skip(1).len() == 0);
    assert(first_text(entries, vars, keys.skip(1)) == TextOutcome::Absent);
}

/// The keys of a version, whatever the name in front, and the keys of the
/// settings that have one key differ from the cache path's key.
proof fn lemma_keys_differ_from_cache_path(name: Seq<char>)
    ensures
        "browser-version"@ != CACHE_PATH_KEY@,
        "driver-version"@ != CACHE_PATH_KEY@,
        "browser-path"@ != CACHE_PATH_KEY@,
        "os"@ != CACHE_PATH_KEY@,
        "arch"@ != CACHE_PATH_KEY@,
        "proxy"@ != CACHE_PATH_KEY@,
        name + VERSION_PREFIX@ != CACHE_PATH_KEY@,
{
    reveal_strlit("cache-path");
    reveal_strlit("browser-version");
    reveal_strlit("driver-version");
    reveal_strlit("browser-path");
    reveal_strlit("os");
    reveal_strlit("arch");
    reveal_strlit("proxy");
    reveal_strlit("-version");
    assert(CACHE_PATH_KEY@.len() == 10);
    assert("browser-version"@.len() == 15);
    assert("driver-version"@.len() == 14);
    assert("browser-path"@.len() == 12);
    assert("os"@.len() == 2);
    assert("arch"@.len() == 4);
    assert("proxy"@.len() == 5);
    let label = name + VERSION_PREFIX@;
    assert(label[label.len() - 1] == 'n');
    assert(CACHE_PATH_KEY@[9] == 'h');
}

/// A pass that succeeds while a cache path is in force returns that cache
/// path, whatever the table and the environment hold for it.
pub proof fn lemma_pass_returns_cache_path_in_force(
    browser_name: Seq<char>,
    driver_name: Seq<char>,
    self_os: Seq<char>,
    self_arch: Seq<char>,
    entries: Map<Seq<char>, ConfigValueView>,
    vars: Map<Seq<char>, Seq<char>>,
    cache_path: Seq<char>,
)
    requires
        cache_path.len() > 0,
        assembled(browser_name, driver_name, self_os, self_arch, entries, vars, cache_path) is Ok,
    ensures
        assembled(
            browser_name,
            driver_name,
            self_os,
            self_arch,
            entries,
            vars,
            cache_path,
        )->Ok_0.cache_path == cache_path,
{
    let settings = text_settings(browser_name, driver_name, self_os, self_arch, cache_path);
    let failures = outcomes(entries, vars, settings);
    lemma_all_succeed(failures);
    assert(failures[0] is None);
    assert(resolved_texts(entries, vars, settings)[0] is Ok);
    assert(settings[0].0.skip(1).len() == 0);
    lemma_found_key_is_candidate(entries, vars, settings[0].0);
}

/// A pass that succeeds and returns a cache path that is not empty leaves
/// that cache path in force. A browser named `cache` is left out: the key of
/// its path is the cache path's key.
pub proof fn lemma_pass_leaves_cache_path_in_force(
    browser_name: Seq<char>,
    driver_name: Seq<char>,
    self_os: Seq<char>,
    self_arch: Seq<char>,
    entries: Map<Seq<char>, ConfigValueView>,
    vars: Map<Seq<char>, Seq<char>>,
    ctx: ContextView,
)
    requires
        browser_name + PATH_PREFIX@ != CACHE_PATH_KEY@,
        assembled(
            browser_name,
            driver_name,
            self_os,
            self_arch,
            entries,
            vars,
            ctx.current(),
        ) matches Ok(config) && config.cache_path.len() > 0,
    ensures
        assembled_context(
            browser_name,
            driver_name,
            self_os,
            self_arch,
            entries,
            vars,
            ctx,
        ).current() == assembled(
            browser_name,
            driver_name,
            self_os,
            self_arch,
            entries,
            vars,
            ctx.current(),
        )->Ok_0.cache_path,
{
    let settings = text_settings(browser_name, driver_name, self_os, self_arch, ctx.current());
    let texts = resolved_texts(entries, vars, settings);
    let failures = outcomes(entries, vars, settings);
    lemma_all_succeed(failures);
    assert forall|k: int| 0 <= k < 7 implies (#[trigger] texts[k]) is Ok by {
        assert(failures[k] is None);
    }
    lemma_keys_differ_from_cache_path(browser_name);
    lemma_keys_differ_from_cache_path(driver_name);
    assert(settings.skip(0) == settings);
    lemma_texts_context_step(entries, vars, settings, 0, ctx);
    let c1 = resolved_context(entries, vars, settings[0].0, settings[0].1, ctx);
    assert(texts[0] is Ok);
    assert(settings[0].0.skip(1).len() == 0);
    lemma_found_key_is_candidate(entries, vars, settings[0].0);
    assert(c1.current() == texts[0]->Ok_0);
    assert(texts[1] is Ok);
    lemma_texts_context_step(entries, vars, settings, 1, c1);
    lemma_other_settings_keep_context(entries, vars, settings[1].0, settings[1].1, c1);
    assert(texts[2] is Ok);
    lemma_texts_context_step(entries, vars, settings, 2, c1);
    lemma_other_settings_keep_context(entries, vars, settings[2].0, settings[2].1, c1);
    assert(texts[3] is Ok);
    lemma_texts_context_step(entries, vars, settings, 3, c1);
    lemma_other_settings_keep_context(entries, vars, settings[3].0, settings[3].1, c1);
    assert(texts[4] is Ok);
    lemma_texts_context_step(entries, vars, settings, 4, c1);
    lemma_other_settings_keep_context(entries, vars, settings[4].0, settings[4].1, c1);
    assert(texts[5] is Ok);
    lemma_texts_context_step(entries, vars, settings, 5, c1);
    lemma_other_settings_keep_context(entries, vars, settings[5].0, settings[5].1, c1);
    assert(texts[6] is Ok);
    lemma_texts_context_step(entries, vars, settings, 6, c1);
    lemma_other_settings_keep_context(entries, vars, settings[6].0, settings[6].1, c1);
    assert(settings.skip(7).len() == 0);
    assert(texts_context(entries, vars, settings, ctx) == c1);
}

/// Once a pass has resolved the cache path to a text that is not empty,
/// every later pass that succeeds returns that cache path, whatever the
/// table and the environment hold by then. A first pass for a browser named
/// `cache` is left out.
pub proof fn lemma_cache_path_survives_passes(
    browser_name: Seq<char>,
    driver_name: Seq<char>,
    self_os: Seq<char>,
    self_arch: Seq<char>,
    entries: Map<Seq<char>, ConfigValueView>,
    vars: Map<Seq<char>, Seq<char>>,
    ctx: ContextView,
    later_browser_name: Seq<char>,
    later_driver_name: Seq<char>,
    later_os: Seq<char>,
    later_arch: Seq<char>,
    later_entries: Map<Seq<char>, ConfigValueView>,
    later_vars: Map<Seq<char>, Seq<char>>,
)
    requires
        browser_name + PATH_PREFIX@ != CACHE_PATH_KEY@,
        assembled(
            browser_name,
            driver_name,
            self_os,
            self_arch,
            entries,
            vars,
            ctx.current(),
        ) matches Ok(first) && first.cache_path.len() > 0,
        assembled(
            later_browser_name,
            later_driver_name,
            later_os,
            later_arch,
            later_entries,
            later_vars,
            assembled_context(
                browser_name,
                driver_name,
                self_os,
                self_arch,
                entries,
                vars,
                ctx,
            ).current(),
        ) is Ok,
    ensures
        assembled(
            later_browser_name,
            later_driver_name,
            later_os,
            later_arch,
            later_entries,
            later_vars,
            assembled_context(
                browser_name,
                driver_name,
                self_os,
                self_arch,
                entries,
                vars,
                ctx,
            ).current(),
        )->Ok_0.cache_path == assembled(
            browser_name,
            driver_name,
            self_os,
            self_arch,
            entries,
            vars,
            ctx.current(),
        )->Ok_0.cache_path,
{
    lemma_pass_leaves_cache_path_in_force(
        browser_name,
        driver_name,
        self_os,
        self_arch,
        entries,
        vars,
        ctx,
    );
    lemma_pass_returns_cache_path_in_force(
        later_browser_name,
        later_driver_name,
        later_os,
        later_arch,
        later_entries,
        later_vars,
        assembled_context(
            browser_name,
            driver_name,
            self_os,
            self_arch,
            entries,
            vars,
            ctx,
        ).current(),
    );
}

/// With an empty table and an empty environment a pass gives every setting
/// its default: the cache path in force, the host's operating system and
/// architecture, no versions, paths or proxy, the default times, and neither
/// offline nor forced download.
pub proof fn lemma_pass_defaults_without_sources(
    browser_name: Seq<char>,
    driver_name: Seq<char>,
    self_os: Seq<char>,
    self_arch: Seq<char>,
    cache_path: Seq<char>,
)
    ensures
        assembled(
            browser_name,
            driver_name,
            self_os,
            self_arch,
            Map::empty(),
            Map::empty(),
            cache_path,
        ) == Ok::<ManagerConfigView, ConfigErrorView>(
            ManagerConfigView {
                cache_path,
                browser_version: Seq::empty(),
                driver_version: Seq::empty(),
                browser_path: Seq::empty(),
                os: self_os,
                arch: self_arch,
                proxy: Seq::empty(),
                timeout: REQUEST_TIMEOUT_SEC,
                browser_ttl: TTL_BROWSERS_SEC,
                driver_ttl: TTL_DRIVERS_SEC,
                offline: false,
                force_browser_download: false,
            },
        ),
{
    let entries = Map::<Seq<char>, ConfigValueView>::empty();
    let vars = Map::<Seq<char>, Seq<char>>::empty();
    let settings = text_settings(browser_name, driver_name, self_os, self_arch, cache_path);
    let texts = resolved_texts(entries, vars, settings);
    let ctx = ContextView { default_folder: cache_path, cache_path };
    assert forall|k: int| 0 <= k < 7 implies #[trigger] texts[k] == Ok::<
        Seq<char>,
        ConfigErrorView,
    >(settings[k].1) by {
        lemma_text_default_without_sources(vars, settings[k].0, settings[k].1, ctx);
    }
    lemma_integer_default_without_sources(vars, "timeout"@, REQUEST_TIMEOUT_SEC);
    lemma_integer_default_without_sources(vars, "browser-ttl"@, TTL_BROWSERS_SEC);
    lemma_integer_default_without_sources(vars, "driver-ttl"@, TTL_DRIVERS_SEC);
    lemma_boolean_default_without_sources(vars, "offline"@, false);
    lemma_boolean_default_without_sources(vars, "force-browser-download"@, false);
    let failures = outcomes(entries, vars, settings);
    assert forall|j: int| 0 <= j < failures.len() implies failures[j] is None by {
        if j < 7 {
            assert(texts[j] is Ok);
        }
    }
    lemma_no_failure(failures);
    assert(texts[0]->Ok_0 == cache_path);
    assert(texts[1]->Ok_0 == Seq::<char>::empty());
    assert(texts[2]->Ok_0 == Seq::<char>::empty());
    assert(texts[3]->Ok_0 == Seq::<char>::empty());
    assert(texts[4]->Ok_0 == self_os);
    assert(texts[5]->Ok_0 == self_arch);
    assert(texts[6]->Ok_0 == Seq::<char>::empty());
}

} // verus!
