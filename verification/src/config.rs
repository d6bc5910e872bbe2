//! The manager's configuration: one value for every setting, assembled from
//! the table, the environment and the defaults.

use vstd::prelude::*;
use toml::Table;
use crate::cache::{read_cache_path, ContextView, ResolutionContext, CACHE_PATH_KEY};
use crate::environment::Environment;
use crate::error::{ConfigError, ConfigErrorView};
use crate::keys::{
    resolved_boolean, resolved_context, resolved_integer, resolved_text, text_result, BooleanKey,
    IntegerKey, StringKey,
};
use crate::table::{table_entries, ConfigValueView};
use crate::text::{concat, key_names};

verus! {

/// What follows a browser's or a driver's name in the key of its version.
pub const VERSION_PREFIX: &'static str = "-version";

/// What follows a browser's name in the key of its path.
pub const PATH_PREFIX: &'static str = "-path";

/// The seconds that a request may take where no timeout is configured.
pub const REQUEST_TIMEOUT_SEC: u64 = 120;

/// The seconds for which a resolved browser is remembered by default.
pub const TTL_BROWSERS_SEC: u64 = 0;

/// The seconds for which a resolved driver is remembered by default.
pub const TTL_DRIVERS_SEC: u64 = 86400;

/// The resolved configuration. Every field has a value: where no source
/// names one, it is the setting's default.
#[derive(Debug, PartialEq, Eq)]
pub struct ManagerConfig {
    pub cache_path: String,
    pub browser_version: String,
    pub driver_version: String,
    pub browser_path: String,
    pub os: String,
    pub arch: String,
    pub proxy: String,
    pub timeout: u64,
    pub browser_ttl: u64,
    pub driver_ttl: u64,
    pub offline: bool,
    pub force_browser_download: bool,
}

/// A configuration over plain sequences of characters.
pub struct ManagerConfigView {
    pub cache_path: Seq<char>,
    pub browser_version: Seq<char>,
    pub driver_version: Seq<char>,
    pub browser_path: Seq<char>,
    pub os: Seq<char>,
    pub arch: Seq<char>,
    pub proxy: Seq<char>,
    pub timeout: u64,
    pub browser_ttl: u64,
    pub driver_ttl: u64,
    pub offline: bool,
    pub force_browser_download: bool,
}

impl View for ManagerConfig {
    type V = ManagerConfigView;

    open spec fn view(&self) -> ManagerConfigView {
        ManagerConfigView {
            cache_path: self.cache_path@,
            browser_version: self.browser_version@,
            driver_version: self.driver_version@,
            browser_path: self.browser_path@,
            os: self.os@,
            arch: self.arch@,
            proxy: self.proxy@,
            timeout: self.timeout,
            browser_ttl: self.browser_ttl,
            driver_ttl: self.driver_ttl,
            offline: self.offline,
            force_browser_download: self.force_browser_download,
        }
    }
}

/// A text setting as a pair: its candidate keys and its default.
pub type TextSetting = (Seq<Seq<char>>, Seq<char>);

/// The text settings of the configuration in the order in which they are
/// resolved. The cache path's default is the cache path in force; the
/// operating system and the architecture default to the host's.
pub open spec fn text_settings(
    browser_name: Seq<char>,
    driver_name: Seq<char>,
    self_os: Seq<char>,
    self_arch: Seq<char>,
    cache_path: Seq<char>,
) -> Seq<TextSetting> {
    seq![
        (seq![CACHE_PATH_KEY@], cache_path),
        (seq!["browser-version"@, browser_name + VERSION_PREFIX@], Seq::empty()),
        (seq!["driver-version"@, driver_name + VERSION_PREFIX@], Seq::empty()),
        (seq!["browser-path"@, browser_name + PATH_PREFIX@], Seq::empty()),
        (seq!["os"@], self_os),
        (seq!["arch"@], self_arch),
        (seq!["proxy"@], Seq::empty()),
    ]
}

/// The context after the text settings have been resolved one after the
/// other, up to the first that fails.
pub open spec fn texts_context(
    entries: Map<Seq<char>, ConfigValueView>,
    vars: Map<Seq<char>, Seq<char>>,
    settings: Seq<TextSetting>,
    ctx: ContextView,
) -> ContextView
    decreases settings.len(),
{
    if settings.len() == 0 {
        ctx
    } else if resolved_text(entries, vars, settings[0].0, settings[0].1) is Err {
        ctx
    } else {
        texts_context(
            entries,
            vars,
            settings.skip(1),
            resolved_context(entries, vars, settings[0].0, settings[0].1, ctx),
        )
    }
}

/// The failure of a resolution, if it failed.
pub open spec fn failure<T>(r: Result<T, ConfigErrorView>) -> Option<ConfigErrorView> {
    match r {
        Ok(_) => None,
        Err(e) => Some(e),
    }
}

/// The first failure in a list of outcomes.
pub open spec fn first_failure(outcomes: Seq<Option<ConfigErrorView>>) -> Option<ConfigErrorView>
    decreases outcomes.len(),
{
    if outcomes.len() == 0 {
        None
    } else if outcomes[0] is Some {
        outcomes[0]
    } else {
        first_failure(outcomes.skip(1))
    }
}

/// The outcome of each text setting of a list.
pub open spec fn resolved_texts(
    entries: Map<Seq<char>, ConfigValueView>,
    vars: Map<Seq<char>, Seq<char>>,
    settings: Seq<TextSetting>,
) -> Seq<Result<Seq<char>, ConfigErrorView>> {
    Seq::new(settings.len(), |i: int| resolved_text(entries, vars, settings[i].0, settings[i].1))
}

/// Whether each setting of the configuration fails, in the order of the
/// fields: the text settings, then the numbers, then the truth values.
pub open spec fn outcomes(
    entries: Map<Seq<char>, ConfigValueView>,
    vars: Map<Seq<char>, Seq<char>>,
    settings: Seq<TextSetting>,
) -> Seq<Option<ConfigErrorView>> {
    Seq::new(settings.len(), |i: int| failure(resolved_texts(entries, vars, settings)[i])) + seq![
        failure(resolved_integer(entries, vars, "timeout"@, REQUEST_TIMEOUT_SEC)),
        failure(resolved_integer(entries, vars, "browser-ttl"@, TTL_BROWSERS_SEC)),
        failure(resolved_integer(entries, vars, "driver-ttl"@, TTL_DRIVERS_SEC)),
        failure(resolved_boolean(entries, vars, "offline"@, false)),
        failure(resolved_boolean(entries, vars, "force-browser-download"@, false)),
    ]
}

/// The configuration that the sources give: every setting resolved by its
/// own rule. Where a resolution fails, the first failure in the order of the
/// fields is the outcome.
pub open spec fn assembled(
    browser_name: Seq<char>,
    driver_name: Seq<char>,
    self_os: Seq<char>,
    self_arch: Seq<char>,
    entries: Map<Seq<char>, ConfigValueView>,
    vars: Map<Seq<char>, Seq<char>>,
    cache_path: Seq<char>,
) -> Result<ManagerConfigView, ConfigErrorView> {
    let settings = text_settings(browser_name, driver_name, self_os, self_arch, cache_path);
    let texts = resolved_texts(entries, vars, settings);
    match first_failure(outcomes(entries, vars, settings)) {
        Some(e) => Err(e),
        None => Ok(
            ManagerConfigView {
                cache_path: texts[0]->Ok_0,
                browser_version: texts[1]->Ok_0,
                driver_version: texts[2]->Ok_0,
                browser_path: texts[3]->Ok_0,
                os: texts[4]->Ok_0,
                arch: texts[5]->Ok_0,
                proxy: texts[6]->Ok_0,
                timeout: resolved_integer(entries, vars, "timeout"@, REQUEST_TIMEOUT_SEC)->Ok_0,
                browser_ttl: resolved_integer(
                    entries,
                    vars,
                    "browser-ttl"@,
                    TTL_BROWSERS_SEC,
                )->Ok_0,
                driver_ttl: resolved_integer(entries, vars, "driver-ttl"@, TTL_DRIVERS_SEC)->Ok_0,
                offline: resolved_boolean(entries, vars, "offline"@, false)->Ok_0,
                force_browser_download: resolved_boolean(
                    entries,
                    vars,
                    "force-browser-download"@,
                    false,
                )->Ok_0,
            },
        ),
    }
}

/// The context that assembling the configuration leaves behind.
pub open spec fn assembled_context(
    browser_name: Seq<char>,
    driver_name: Seq<char>,
    self_os: Seq<char>,
    self_arch: Seq<char>,
    entries: Map<Seq<char>, ConfigValueView>,
    vars: Map<Seq<char>, Seq<char>>,
    ctx: ContextView,
) -> ContextView {
    texts_context(
        entries,
        vars,
        text_settings(browser_name, driver_name, self_os, self_arch, ctx.current()),
        ctx,
    )
}

/// A configuration or its failure over plain sequences of characters.
pub open spec fn config_result(r: Result<ManagerConfig, ConfigError>) -> Result<
    ManagerConfigView,
    ConfigErrorView,
> {
    match r {
        Ok(c) => Ok(c@),
        Err(e) => Err(e@),
    }
}

/// The first failure of a list is the outcome at `k` where that is a failure
/// and none stands before it.
pub proof fn lemma_first_failure_at(outcomes: Seq<Option<ConfigErrorView>>, k: int)
    requires
        0 <= k < outcomes.len(),
        outcomes[k] is Some,
        forall|j: int| 0 <= j < k ==> outcomes[j] is None,
    ensures
        first_failure(outcomes) == outcomes[k],
    decreases k,
{
    if k > 0 {
        assert(outcomes[0] is None);
        assert(outcomes.skip(1)[k - 1] == outcomes[k]);
        assert forall|j: int| 0 <= j < k - 1 implies outcomes.skip(1)[j] is None by {
            assert(outcomes.skip(1)[j] == outcomes[j + 1]);
        }
        lemma_first_failure_at(outcomes.skip(1), k - 1);
    }
}

/// A list without a failure has no first failure.
pub proof fn lemma_no_failure(outcomes: Seq<Option<ConfigErrorView>>)
    requires
        forall|j: int| 0 <= j < outcomes.len() ==> outcomes[j] is None,
    ensures
        first_failure(outcomes) is None,
    decreases outcomes.len(),
{
    if outcomes.len() > 0 {
        assert forall|j: int| 0 <= j < outcomes.skip(1).len() implies outcomes.skip(1)[j] is None by {
            assert(outcomes.skip(1)[j] == outcomes[j + 1]);
        }
        lemma_no_failure(outcomes.skip(1));
    }
}

/// A list without a first failure holds no failure.
pub proof fn lemma_all_succeed(outcomes: Seq<Option<ConfigErrorView>>)
    requires
        first_failure(outcomes) is None,
    ensures
        forall|j: int| 0 <= j < outcomes.len() ==> outcomes[j] is None,
    decreases outcomes.len(),
{
    if outcomes.len() > 0 {
        lemma_all_succeed(outcomes.skip(1));
        assert forall|j: int| 0 <= j < outcomes.len() implies outcomes[j] is None by {
            if j > 0 {
                assert(outcomes.skip(1)[j - 1] == outcomes[j]);
            }
        }
    }
}

/// Resolving the text setting in front of a list leads on to the rest of the
/// list, or ends the pass where it fails.
pub proof fn lemma_texts_context_step(
    entries: Map<Seq<char>, ConfigValueView>,
    vars: Map<Seq<char>, Seq<char>>,
    settings: Seq<TextSetting>,
    k: int,
    ctx: ContextView,
)
    requires
        0 <= k < settings.len(),
    ensures
        texts_context(entries, vars, settings.skip(k), ctx) == (if resolved_text(
            entries,
            vars,
            settings[k].0,
            settings[k].1,
        ) is Err {
            ctx
        } else {
            texts_context(
                entries,
                vars,
                settings.skip(k + 1),
                resolved_context(entries, vars, settings[k].0, settings[k].1, ctx),
            )
        }),
{
    assert(settings.skip(k)[0] == settings[k]);
    assert(settings.skip(k).skip(1) == settings.skip(k + 1));
}

/// Resolves the text setting at place `k` of a pass that began in the
/// context `start`.
fn resolve_text_at(
    keys: Vec<&str>,
    default_value: &str,
    table: &Table,
    vars: &Environment,
    ctx: &mut ResolutionContext,
    Ghost(settings): Ghost<Seq<TextSetting>>,
    Ghost(k): Ghost<int>,
    Ghost(start): Ghost<ContextView>,
) -> (value: Result<String, ConfigError>)
    requires
        0 <= k < settings.len(),
        key_names(keys@) == settings[k].0,
        default_value@ == settings[k].1,
        texts_context(table_entries(*table), vars@, settings, start) == texts_context(
            table_entries(*table),
            vars@,
            settings.skip(k),
            old(ctx)@,
        ),
    ensures
        text_result(value) == resolved_texts(table_entries(*table), vars@, settings)[k],
        value is Ok ==> texts_context(table_entries(*table), vars@, settings, start)
            == texts_context(table_entries(*table), vars@, settings.skip(k + 1), final(ctx)@),
        value is Err ==> final(ctx)@ == texts_context(
            table_entries(*table),
            vars@,
            settings,
            start,
        ),
{
    proof {
        lemma_texts_context_step(table_entries(*table), vars@, settings, k, ctx@);
    }
    StringKey(keys, default_value).get_value(table, vars, ctx)
}

impl ManagerConfig {
    /// Assembles the configuration for a browser and its driver on a host
    /// whose operating system is named `self_os` and whose architecture was
    /// detected as `self_arch`. Every lookup reads the same table and the same
    /// environment. The pass fails where the table holds a value of the wrong
    /// type under a key that a lookup reaches.
    pub fn default(
        browser_name: &str,
        driver_name: &str,
        self_os: &str,
        self_arch: &str,
        table: &Table,
        vars: &Environment,
        ctx: &mut ResolutionContext,
    ) -> (config: Result<ManagerConfig, ConfigError>)
        ensures
            config_result(config) == assembled(
                browser_name@,
                driver_name@,
                self_os@,
                self_arch@,
                table_entries(*table),
                vars@,
                old(ctx)@.current(),
            ),
            final(ctx)@ == assembled_context(
                browser_name@,
                driver_name@,
                self_os@,
                self_arch@,
                table_entries(*table),
                vars@,
                old(ctx)@,
            ),
    {
        let ghost entries = table_entries(*table);
        let ghost start = ctx@;
        let ghost settings = text_settings(
            browser_name@,
            driver_name@,
            self_os@,
            self_arch@,
            start.current(),
        );
        let ghost failures = outcomes(entries, vars@, settings);
        proof {
            reveal_strlit("");
            assert(""@ =~= Seq::<char>::empty());
            assert(settings.skip(0) == settings);
        }
        let cache_default = read_cache_path(ctx);
        let keys = vec![CACHE_PATH_KEY];
        proof {
            assert(key_names(keys@) =~= settings[0].0);
        }
        let cache_path = match resolve_text_at(
            keys,
            cache_default.as_str(),
            table,
            vars,
            ctx,
            Ghost(settings),
            Ghost(0),
            Ghost(start),
        ) {
            Ok(value) => value,
            Err(e) => {
                proof {
                    lemma_first_failure_at(failures, 0);
                }
                return Err(e);
            },
        };

        let browser_version_label = concat(browser_name, VERSION_PREFIX);
        let driver_version_label = concat(driver_name, VERSION_PREFIX);
        let browser_path_label = concat(browser_name, PATH_PREFIX);

        let keys = vec!["browser-version", browser_version_label.as_str()];
        proof {
            assert(key_names(keys@) =~= settings[1].0);
        }
        let browser_version = match resolve_text_at(
            keys,
            "",
            table,
            vars,
            ctx,
            Ghost(settings),
            Ghost(1),
            Ghost(start),
        ) {
            Ok(value) => value,
            Err(e) => {
                proof {
                    lemma_first_failure_at(failures, 1);
                }
                return Err(e);
            },
        };

        let keys = vec!["driver-version", driver_version_label.as_str()];
        proof {
            assert(key_names(keys@) =~= settings[2].0);
        }
        let driver_version = match resolve_text_at(
            keys,
            "",
            table,
            vars,
            ctx,
            Ghost(settings),
            Ghost(2),
            Ghost(start),
        ) {
            Ok(value) => value,
            Err(e) => {
                proof {
                    lemma_first_failure_at(failures, 2);
                }
                return Err(e);
            },
        };

        let keys = vec!["browser-path", browser_path_label.as_str()];
        proof {
            assert(key_names(keys@) =~= settings[3].0);
        }
        let browser_path = match resolve_text_at(
            keys,
            "",
            table,
            vars,
            ctx,
            Ghost(settings),
            Ghost(3),
            Ghost(start),
        ) {
            Ok(value) => value,
            Err(e) => {
                proof {
                    lemma_first_failure_at(failures, 3);
                }
                return Err(e);
            },
        };

        let keys = vec!["os"];
        proof {
            assert(key_names(keys@) =~= settings[4].0);
        }
        let os = match resolve_text_at(
            keys,
            self_os,
            table,
            vars,
            ctx,
            Ghost(settings),
            Ghost(4),
            Ghost(start),
        ) {
            Ok(value) => value,
            Err(e) => {
                proof {
                    lemma_first_failure_at(failures, 4);
                }
                return Err(e);
            },
        };

        let keys = vec!["arch"];
        proof {
            assert(key_names(keys@) =~= settings[5].0);
        }
        let arch = match resolve_text_at(
            keys,
            self_arch,
            table,
            vars,
            ctx,
            Ghost(settings),
            Ghost(5),
            Ghost(start),
        ) {
            Ok(value) => value,
            Err(e) => {
                proof {
                    lemma_first_failure_at(failures, 5);
                }
                return Err(e);
            },
        };

        let keys = vec!["proxy"];
        proof {
            assert(key_names(keys@) =~= settings[6].0);
        }
        let proxy = match resolve_text_at(
            keys,
            "",
            table,
            vars,
            ctx,
            Ghost(settings),
            Ghost(6),
            Ghost(start),
        ) {
            Ok(value) => value,
            Err(e) => {
                proof {
                    lemma_first_failure_at(failures, 6);
                }
                return Err(e);
            },
        };
        proof {
            assert(settings.skip(7).len() == 0);
        }

        let timeout = match IntegerKey("timeout", REQUEST_TIMEOUT_SEC).get_value(table, vars) {
            Ok(value) => value,
            Err(e) => {
                proof {
                    lemma_first_failure_at(failures, 7);
                }
                return Err(e);
            },
        };
        let browser_ttl = match IntegerKey("browser-ttl", TTL_BROWSERS_SEC).get_value(table, vars) {
            Ok(value) => value,
            Err(e) => {
                proof {
                    lemma_first_failure_at(failures, 8);
                }
                return Err(e);
            },
        };
        let driver_ttl = match IntegerKey("driver-ttl", TTL_DRIVERS_SEC).get_value(table, vars) {
            Ok(value) => value,
            Err(e) => {
                proof {
                    lemma_first_failure_at(failures, 9);
                }
                return Err(e);
            },
        };
        let offline = match BooleanKey("offline", false).get_value(table, vars) {
            Ok(value) => value,
            Err(e) => {
                proof {
                    lemma_first_failure_at(failures, 10);
                }
                return Err(e);
            },
        };
        let force_browser_download = match BooleanKey("force-browser-download", false).get_value(
            table,
            vars,
        ) {
            Ok(value) => value,
            Err(e) => {
                proof {
                    lemma_first_failure_at(failures, 11);
                }
                return Err(e);
            },
        };
        proof {
            lemma_no_failure(failures);
        }
        Ok(
            ManagerConfig {
                cache_path,
                browser_version,
                driver_version,
                browser_path,
                os,
                arch,
                proxy,
                timeout,
                browser_ttl,
                driver_ttl,
                offline,
                force_browser_download,
            },
        )
    }
}

} // verus!
