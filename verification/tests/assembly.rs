use selenium_manager::cache::{read_cache_path, ResolutionContext};
use selenium_manager::config::{
    ManagerConfig, REQUEST_TIMEOUT_SEC, TTL_BROWSERS_SEC, TTL_DRIVERS_SEC,
};
use selenium_manager::environment::Environment;
use selenium_manager::error::ConfigError;
use selenium_manager::table::get_config;

fn assemble(
    table_text: Option<&str>,
    vars: &Environment,
    ctx: &mut ResolutionContext,
) -> Result<ManagerConfig, ConfigError> {
    let table = get_config(table_text);
    ManagerConfig::default("chrome", "chromedriver", "linux", "x86_64", &table, vars, ctx)
}

#[test]
fn defaults_without_sources() {
    let mut ctx = ResolutionContext::new("/home/u/.cache/selenium");
    let config = assemble(None, &Environment::new(), &mut ctx).unwrap();
    assert_eq!(
        config,
        ManagerConfig {
            cache_path: "/home/u/.cache/selenium".to_string(),
            browser_version: String::new(),
            driver_version: String::new(),
            browser_path: String::new(),
            os: "linux".to_string(),
            arch: "x86_64".to_string(),
            proxy: String::new(),
            timeout: 120,
            browser_ttl: 0,
            driver_ttl: 86400,
            offline: false,
            force_browser_download: false,
        }
    );
    assert_eq!(config.timeout, REQUEST_TIMEOUT_SEC);
    assert_eq!(config.browser_ttl, TTL_BROWSERS_SEC);
    assert_eq!(config.driver_ttl, TTL_DRIVERS_SEC);
    assert_eq!(read_cache_path(&ctx), "/home/u/.cache/selenium");
}

#[test]
fn offline_from_environment() {
    let mut ctx = ResolutionContext::new("/c");
    let mut vars = Environment::new();
    vars.set("SE_OFFLINE", "true");
    let config = assemble(None, &vars, &mut ctx).unwrap();
    assert!(config.offline);
    assert!(!config.force_browser_download);
}

#[test]
fn driver_ttl_from_table() {
    let mut ctx = ResolutionContext::new("/c");
    let config = assemble(Some("driver-ttl = 86400"), &Environment::new(), &mut ctx).unwrap();
    assert_eq!(config.driver_ttl, 86400);
    let config = assemble(Some("driver-ttl = 60"), &Environment::new(), &mut ctx).unwrap();
    assert_eq!(config.driver_ttl, 60);
    assert_eq!(config.browser_ttl, 0);
}

#[test]
fn arch_defaults_to_the_detected_one() {
    let mut ctx = ResolutionContext::new("/c");
    let table = get_config(None);
    let vars = Environment::new();
    let config =
        ManagerConfig::default("firefox", "geckodriver", "macos", "arm64", &table, &vars, &mut ctx)
            .unwrap();
    assert_eq!(config.arch, "arm64");
    assert_eq!(config.os, "macos");
}

#[test]
fn every_setting_from_its_source() {
    let mut ctx = ResolutionContext::new("/c");
    let mut vars = Environment::new();
    vars.set("SE_CHROME_VERSION", "116");
    vars.set("SE_DRIVER_VERSION", "115.0");
    vars.set("SE_CHROMEDRIVER_VERSION", "ignored");
    vars.set("SE_OS", "windows");
    vars.set("SE_TIMEOUT", "30");
    vars.set("SE_FORCE_BROWSER_DOWNLOAD", "true");
    let text = "chrome-path = \"/opt/chrome\"\narch = \"arm64\"\nproxy = \"http://p:1\"\n\
                browser-ttl = 10\noffline = true\n";
    let config = assemble(Some(text), &vars, &mut ctx).unwrap();
    assert_eq!(
        config,
        ManagerConfig {
            cache_path: "/c".to_string(),
            browser_version: "116".to_string(),
            driver_version: "115.0".to_string(),
            browser_path: "/opt/chrome".to_string(),
            os: "windows".to_string(),
            arch: "arm64".to_string(),
            proxy: "http://p:1".to_string(),
            timeout: 30,
            browser_ttl: 10,
            driver_ttl: 86400,
            offline: true,
            force_browser_download: true,
        }
    );
}

#[test]
fn first_wrong_type_in_field_order_is_the_failure() {
    let mut ctx = ResolutionContext::new("/c");
    let text = "timeout = \"soon\"\nproxy = 1\noffline = 0\n";
    assert_eq!(
        assemble(Some(text), &Environment::new(), &mut ctx),
        Err(ConfigError::WrongType("proxy".to_string()))
    );
    let text = "timeout = \"soon\"\noffline = 0\n";
    assert_eq!(
        assemble(Some(text), &Environment::new(), &mut ctx),
        Err(ConfigError::WrongType("timeout".to_string()))
    );
    let text = "force-browser-download = \"yes\"\n";
    assert_eq!(
        assemble(Some(text), &Environment::new(), &mut ctx),
        Err(ConfigError::WrongType("force-browser-download".to_string()))
    );
}

#[test]
fn cache_path_is_fixed_by_the_first_pass() {
    let mut ctx = ResolutionContext::new("");
    let mut vars = Environment::new();
    vars.set("SE_CACHE_PATH", "/first");
    let config = assemble(None, &vars, &mut ctx).unwrap();
    assert_eq!(config.cache_path, "/first");
    assert_eq!(read_cache_path(&ctx), "/first");

    vars.set("SE_CACHE_PATH", "/second");
    let config = assemble(Some("cache-path = \"/third\""), &vars, &mut ctx).unwrap();
    assert_eq!(config.cache_path, "/first");
    assert_eq!(read_cache_path(&ctx), "/first");
}

#[test]
fn cache_path_stays_empty_without_any_source() {
    let mut ctx = ResolutionContext::new("");
    let config = assemble(None, &Environment::new(), &mut ctx).unwrap();
    assert_eq!(config.cache_path, "");
    assert_eq!(read_cache_path(&ctx), "");
}

#[test]
fn path_of_a_browser_named_cache_is_written_back() {
    let mut ctx = ResolutionContext::new("/c");
    let table = get_config(Some("cache-path = \"/elsewhere\""));
    let vars = Environment::new();
    let config =
        ManagerConfig::default("cache", "driver", "linux", "x64", &table, &vars, &mut ctx).unwrap();
    assert_eq!(config.cache_path, "/c");
    assert_eq!(config.browser_path, "/elsewhere");
    assert_eq!(read_cache_path(&ctx), "/elsewhere");
}
