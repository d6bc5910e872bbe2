use selenium_manager::cache::{
    check_cache_path, read_cache_path, write_cache_path, ResolutionContext, CACHE_PATH_KEY,
};
use selenium_manager::environment::{get_env_name, Environment};
use selenium_manager::error::ConfigError;
use selenium_manager::keys::{BooleanKey, IntegerKey, StringKey};
use selenium_manager::table::get_config;
use selenium_manager::text;
use selenium_manager::text::{contains_text, parse_bool};

fn no_table() -> toml::Table {
    get_config(None)
}

fn table(text: &str) -> toml::Table {
    get_config(Some(text))
}

#[test]
fn env_name_of_browser_ttl() {
    assert_eq!(get_env_name("browser-ttl"), "SE_BROWSER_TTL");
}

#[test]
fn env_name_of_force_browser_download() {
    assert_eq!(get_env_name("force-browser-download"), "SE_FORCE_BROWSER_DOWNLOAD");
}

#[test]
fn env_name_of_plain_and_empty_keys() {
    assert_eq!(get_env_name("os"), "SE_OS");
    assert_eq!(get_env_name(""), "SE_");
    assert_eq!(get_env_name("a--b"), "SE_A__B");
}

#[test]
fn env_name_upper_cases_by_unicode_rules() {
    assert_eq!(get_env_name("stra\u{df}e"), "SE_STRASSE");
}

#[test]
fn concat_joins_in_order() {
    assert_eq!(text::concat("chrome", "-version"), "chrome-version");
    assert_eq!(text::concat("", "x"), "x");
    assert_eq!(text::concat("x", ""), "x");
}

#[test]
fn contains_text_compares_whole_names() {
    let names = vec!["windows", "win"];
    assert!(contains_text(&names, "win"));
    assert!(!contains_text(&names, "wi"));
    assert!(!contains_text(&names, "windows "));
    assert!(!contains_text(&Vec::new(), ""));
}

#[test]
fn parse_bool_reads_only_true_and_false() {
    assert_eq!(parse_bool("true"), Some(true));
    assert_eq!(parse_bool("false"), Some(false));
    assert_eq!(parse_bool("True"), None);
    assert_eq!(parse_bool(""), None);
    assert_eq!(parse_bool("1"), None);
}

#[test]
fn environment_keeps_the_last_value_set() {
    let mut vars = Environment::new();
    assert_eq!(vars.get("SE_OS"), None);
    assert_eq!(vars.var_or_default("SE_OS"), "");
    vars.set("SE_OS", "linux");
    vars.set("SE_ARCH", "x64");
    vars.set("SE_OS", "mac");
    assert_eq!(vars.get("SE_OS"), Some("mac".to_string()));
    assert_eq!(vars.var_or_default("SE_ARCH"), "x64");
    assert_eq!(vars.get("se_os"), None);
}

#[test]
fn text_defaults_without_sources() {
    let mut ctx = ResolutionContext::new("/home/u/.cache/selenium");
    let vars = Environment::new();
    let key = StringKey(vec!["browser-version", "chrome-version"], "stable");
    assert_eq!(key.get_value(&no_table(), &vars, &mut ctx), Ok("stable".to_string()));
    assert_eq!(read_cache_path(&ctx), "/home/u/.cache/selenium");
}

#[test]
fn text_with_no_candidates_is_the_default() {
    let mut ctx = ResolutionContext::new("");
    let mut vars = Environment::new();
    vars.set("SE_", "x");
    let key = StringKey(Vec::new(), "d");
    assert_eq!(key.get_value(&table("a = \"b\""), &vars, &mut ctx), Ok("d".to_string()));
}

#[test]
fn integer_defaults_without_sources() {
    let vars = Environment::new();
    assert_eq!(IntegerKey("timeout", 120).get_value(&no_table(), &vars), Ok(120));
}

#[test]
fn boolean_defaults_without_sources() {
    let vars = Environment::new();
    assert_eq!(BooleanKey("offline", false).get_value(&no_table(), &vars), Ok(false));
    assert_eq!(BooleanKey("offline", true).get_value(&no_table(), &vars), Ok(true));
}

#[test]
fn unparseable_table_counts_as_empty() {
    let vars = Environment::new();
    let broken = table("timeout = = 5");
    assert_eq!(IntegerKey("timeout", 120).get_value(&broken, &vars), Ok(120));
}

#[test]
fn first_key_in_table_wins() {
    let mut ctx = ResolutionContext::new("/c");
    let mut vars = Environment::new();
    vars.set("SE_BROWSER_VERSION", "from-env");
    vars.set("SE_CHROME_VERSION", "later-env");
    let t = table("browser-version = \"115\"\nchrome-version = \"116\"");
    let key = StringKey(vec!["browser-version", "chrome-version"], "");
    assert_eq!(key.get_value(&t, &vars, &mut ctx), Ok("115".to_string()));
}

#[test]
fn first_key_in_environment_wins() {
    let mut ctx = ResolutionContext::new("/c");
    let mut vars = Environment::new();
    vars.set("SE_BROWSER_VERSION", "first");
    vars.set("SE_CHROME_VERSION", "second");
    let key = StringKey(vec!["browser-version", "chrome-version"], "");
    assert_eq!(key.get_value(&no_table(), &vars, &mut ctx), Ok("first".to_string()));
}

#[test]
fn first_key_with_a_value_wins_over_a_later_key_in_the_table() {
    let mut ctx = ResolutionContext::new("/c");
    let mut vars = Environment::new();
    vars.set("SE_BROWSER_VERSION", "from-env");
    let t = table("chrome-version = \"116\"");
    let key = StringKey(vec!["browser-version", "chrome-version"], "");
    assert_eq!(key.get_value(&t, &vars, &mut ctx), Ok("from-env".to_string()));
}

#[test]
fn later_key_is_used_where_the_first_has_no_value() {
    let mut ctx = ResolutionContext::new("/c");
    let mut vars = Environment::new();
    vars.set("SE_BROWSER_VERSION", "");
    vars.set("SE_CHROME_VERSION", "second");
    let key = StringKey(vec!["browser-version", "chrome-version"], "d");
    assert_eq!(key.get_value(&no_table(), &vars, &mut ctx), Ok("second".to_string()));
}

#[test]
fn empty_text_in_table_hides_the_environment_variable() {
    let mut ctx = ResolutionContext::new("/c");
    let mut vars = Environment::new();
    vars.set("SE_PROXY", "http://proxy");
    let t = table("proxy = \"\"");
    let key = StringKey(vec!["proxy"], "none");
    assert_eq!(key.get_value(&t, &vars, &mut ctx), Ok("none".to_string()));
}

#[test]
fn text_of_wrong_type_in_table_fails() {
    let mut ctx = ResolutionContext::new("/c");
    let vars = Environment::new();
    let t = table("proxy = 8080");
    let key = StringKey(vec!["proxy"], "");
    assert_eq!(
        key.get_value(&t, &vars, &mut ctx),
        Err(ConfigError::WrongType("proxy".to_string()))
    );
}

#[test]
fn wrong_type_behind_a_winning_key_is_not_reached() {
    let mut ctx = ResolutionContext::new("/c");
    let vars = Environment::new();
    let t = table("browser-version = \"115\"\nchrome-version = 116");
    let key = StringKey(vec!["browser-version", "chrome-version"], "");
    assert_eq!(key.get_value(&t, &vars, &mut ctx), Ok("115".to_string()));
    let key = StringKey(vec!["edge-version", "chrome-version"], "");
    assert_eq!(
        key.get_value(&t, &vars, &mut ctx),
        Err(ConfigError::WrongType("chrome-version".to_string()))
    );
}

#[test]
fn integer_from_table() {
    let mut vars = Environment::new();
    vars.set("SE_DRIVER_TTL", "5");
    let t = table("driver-ttl = 86400");
    assert_eq!(IntegerKey("driver-ttl", 1).get_value(&t, &vars), Ok(86400));
}

#[test]
fn negative_integer_from_table_wraps_around() {
    let vars = Environment::new();
    let t = table("timeout = -1");
    assert_eq!(IntegerKey("timeout", 1).get_value(&t, &vars), Ok(u64::MAX));
    let t = table("timeout = -9223372036854775808");
    assert_eq!(IntegerKey("timeout", 1).get_value(&t, &vars), Ok(9223372036854775808));
}

#[test]
fn integer_of_wrong_type_in_table_fails() {
    let vars = Environment::new();
    let t = table("timeout = \"120\"");
    assert_eq!(
        IntegerKey("timeout", 1).get_value(&t, &vars),
        Err(ConfigError::WrongType("timeout".to_string()))
    );
    let t = table("timeout = 1.5");
    assert_eq!(
        IntegerKey("timeout", 1).get_value(&t, &vars),
        Err(ConfigError::WrongType("timeout".to_string()))
    );
}

#[test]
fn integer_from_environment() {
    let mut vars = Environment::new();
    vars.set("SE_TIMEOUT", "42");
    assert_eq!(IntegerKey("timeout", 120).get_value(&no_table(), &vars), Ok(42));
    vars.set("SE_TIMEOUT", "+7");
    assert_eq!(IntegerKey("timeout", 120).get_value(&no_table(), &vars), Ok(7));
    vars.set("SE_TIMEOUT", "007");
    assert_eq!(IntegerKey("timeout", 120).get_value(&no_table(), &vars), Ok(7));
    vars.set("SE_TIMEOUT", "18446744073709551615");
    assert_eq!(IntegerKey("timeout", 120).get_value(&no_table(), &vars), Ok(u64::MAX));
}

#[test]
fn unreadable_integer_in_environment_gives_default() {
    let mut vars = Environment::new();
    for text in ["abc", "", "-1", "+", "1 ", " 1", "1_000", "1.0", "18446744073709551616"] {
        vars.set("SE_TIMEOUT", text);
        assert_eq!(IntegerKey("timeout", 120).get_value(&no_table(), &vars), Ok(120));
    }
}

#[test]
fn boolean_from_table() {
    let mut vars = Environment::new();
    vars.set("SE_OFFLINE", "false");
    let t = table("offline = true");
    assert_eq!(BooleanKey("offline", false).get_value(&t, &vars), Ok(true));
}

#[test]
fn boolean_of_wrong_type_in_table_fails() {
    let vars = Environment::new();
    let t = table("offline = \"true\"");
    assert_eq!(
        BooleanKey("offline", false).get_value(&t, &vars),
        Err(ConfigError::WrongType("offline".to_string()))
    );
}

#[test]
fn boolean_from_environment() {
    let mut vars = Environment::new();
    vars.set("SE_OFFLINE", "true");
    assert_eq!(BooleanKey("offline", false).get_value(&no_table(), &vars), Ok(true));
    vars.set("SE_OFFLINE", "false");
    assert_eq!(BooleanKey("offline", true).get_value(&no_table(), &vars), Ok(false));
}

#[test]
fn unreadable_boolean_in_environment_gives_default() {
    let mut vars = Environment::new();
    for text in ["abc", "", "TRUE", "1", "yes", "true "] {
        vars.set("SE_OFFLINE", text);
        assert_eq!(BooleanKey("offline", false).get_value(&no_table(), &vars), Ok(false));
        assert_eq!(BooleanKey("offline", true).get_value(&no_table(), &vars), Ok(true));
    }
}

#[test]
fn nested_tables_and_arrays_are_no_text() {
    let mut ctx = ResolutionContext::new("/c");
    let vars = Environment::new();
    let t = table("os = [\"linux\"]\n[arch]\nname = \"x64\"");
    assert_eq!(
        StringKey(vec!["os"], "").get_value(&t, &vars, &mut ctx),
        Err(ConfigError::WrongType("os".to_string()))
    );
    assert_eq!(
        StringKey(vec!["arch"], "").get_value(&t, &vars, &mut ctx),
        Err(ConfigError::WrongType("arch".to_string()))
    );
    assert_eq!(StringKey(vec!["name"], "d").get_value(&t, &vars, &mut ctx), Ok("d".to_string()));
}

#[test]
fn context_starts_with_the_default_folder() {
    let ctx = ResolutionContext::new("/home/u/.cache/selenium");
    assert_eq!(read_cache_path(&ctx), "/home/u/.cache/selenium");
}

#[test]
fn written_cache_path_is_read_back() {
    let mut ctx = ResolutionContext::new("/default");
    write_cache_path(&mut ctx, "/other".to_string());
    assert_eq!(read_cache_path(&ctx), "/other");
    write_cache_path(&mut ctx, String::new());
    assert_eq!(read_cache_path(&ctx), "/default");
}

#[test]
fn check_cache_path_keeps_the_value_in_force() {
    let mut ctx = ResolutionContext::new("/default");
    let value = check_cache_path(&mut ctx, CACHE_PATH_KEY, "/found".to_string(), "/default".to_string());
    assert_eq!(value, "/default");
    assert_eq!(read_cache_path(&ctx), "/default");
}

#[test]
fn check_cache_path_takes_the_found_value_where_none_is_in_force() {
    let mut ctx = ResolutionContext::new("");
    let value = check_cache_path(&mut ctx, "cache-path", "/found".to_string(), String::new());
    assert_eq!(value, "/found");
    assert_eq!(read_cache_path(&ctx), "/found");
}

#[test]
fn check_cache_path_passes_other_keys_through() {
    let mut ctx = ResolutionContext::new("/default");
    let value = check_cache_path(&mut ctx, "proxy", "http://p".to_string(), "d".to_string());
    assert_eq!(value, "http://p");
    assert_eq!(read_cache_path(&ctx), "/default");
}

#[test]
fn established_cache_path_survives_other_sources() {
    let mut ctx = ResolutionContext::new("");
    let mut vars = Environment::new();
    vars.set("SE_CACHE_PATH", "/first");
    let default_value = read_cache_path(&ctx);
    let key = StringKey(vec![CACHE_PATH_KEY], &default_value);
    assert_eq!(key.get_value(&no_table(), &vars, &mut ctx), Ok("/first".to_string()));
    assert_eq!(read_cache_path(&ctx), "/first");

    vars.set("SE_CACHE_PATH", "/second");
    let t = table("cache-path = \"/third\"");
    let default_value = read_cache_path(&ctx);
    let key = StringKey(vec![CACHE_PATH_KEY], &default_value);
    assert_eq!(key.get_value(&t, &vars, &mut ctx), Ok("/first".to_string()));
    assert_eq!(read_cache_path(&ctx), "/first");
}

#[test]
fn default_folder_wins_over_configured_cache_path() {
    let mut ctx = ResolutionContext::new("/default");
    let vars = Environment::new();
    let t = table("cache-path = \"/configured\"");
    let default_value = read_cache_path(&ctx);
    let key = StringKey(vec![CACHE_PATH_KEY], &default_value);
    assert_eq!(key.get_value(&t, &vars, &mut ctx), Ok("/default".to_string()));
    assert_eq!(read_cache_path(&ctx), "/default");
}

#[test]
fn error_messages_name_the_cause() {
    assert_eq!(
        ConfigError::WrongType("timeout".to_string()).message(),
        "Invalid value type for configuration key: timeout"
    );
    assert_eq!(
        ConfigError::InvalidOperatingSystem("solaris".to_string()).message(),
        "Invalid operating system: solaris"
    );
}
