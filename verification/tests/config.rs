use sandbox_server::config::{
    default_nodejs_lib_paths, default_nodejs_max_as_bytes, default_nodejs_max_old_space_mb,
    default_python_lib_paths, default_python_max_as_bytes, default_sandbox_gid,
    default_sandbox_uid, default_zygote_modules, AppConfig, Config, ConfigFile, ProxyConfig,
};
use sandbox_server::environ::Environment;

fn minimal() -> ConfigFile {
    ConfigFile {
        app: AppConfig { port: 8194, debug: false, key: "test".to_string() },
        max_workers: None,
        worker_timeout: None,
        enable_network: None,
        enable_preload: None,
        privilege: None,
        python_zygote: None,
        python_zygote_preload_modules: None,
        python_path: None,
        nodejs_path: None,
        python_lib_paths: None,
        nodejs_lib_paths: None,
        sandbox_user: None,
        sandbox_uid: None,
        sandbox_gid: None,
        python_max_as_bytes: None,
        nodejs_max_as_bytes: None,
        nodejs_max_old_space_mb: None,
        proxy: None,
    }
}

fn env(vars: &[(&str, &str)]) -> Environment {
    Environment { vars: vars.iter().map(|(n, v)| (n.to_string(), v.to_string())).collect() }
}

#[test]
fn sandbox_gid_default_is_not_root_group() {
    assert_ne!(default_sandbox_gid(), 0, "sandbox must not default to gid 0 (root group)");
    assert_eq!(default_sandbox_gid(), 65537);
}

/// A config that omits sandbox_gid must not silently fall back to the root group.
#[test]
fn omitted_gid_defaults_to_nonroot() {
    let toml = r#"
[app]
port = 8194
key = "test"
"#;
    let table: toml::Table = toml::from_str(toml).expect("parse minimal config");
    let mut file = minimal();
    file.app.port = table["app"]["port"].as_integer().unwrap() as u16;
    file.app.key = table["app"]["key"].as_str().unwrap().to_string();
    file.sandbox_gid =
        table.get("sandbox_gid").and_then(|v| v.as_integer()).map(|n| n as u32);
    let cfg = Config::from_file(file);
    assert_ne!(cfg.sandbox_gid, 0, "omitted sandbox_gid must not be root group");
    assert_eq!(cfg.sandbox_gid, 65537);
}

#[test]
fn omitted_settings_have_defaults() {
    let cfg = Config::from_file(minimal());
    assert_eq!(cfg.app.port, 8194);
    assert_eq!(cfg.app.key, "test");
    assert_eq!(cfg.max_workers, 4);
    assert_eq!(cfg.worker_timeout, 30);
    assert!(cfg.enable_network);
    assert!(!cfg.enable_preload);
    assert!(cfg.privilege);
    assert!(!cfg.python_zygote);
    assert_eq!(cfg.python_path, "/usr/local/bin/python3");
    assert_eq!(cfg.nodejs_path, "/usr/bin/node");
    assert_eq!(cfg.sandbox_user, "");
    assert_eq!(cfg.sandbox_uid, default_sandbox_uid());
    assert_eq!(default_sandbox_uid(), 65537);
    assert_eq!(cfg.python_max_as_bytes, 268435456);
    assert_eq!(cfg.nodejs_max_as_bytes, 536870912);
    assert_eq!(cfg.nodejs_max_old_space_mb, 768);
    assert_eq!(default_python_max_as_bytes(), 256 * 1024 * 1024);
    assert_eq!(default_nodejs_max_as_bytes(), 512 * 1024 * 1024);
    assert_eq!(default_nodejs_max_old_space_mb(), 768);
    assert_eq!(cfg.python_zygote_preload_modules, default_zygote_modules());
    assert_eq!(default_zygote_modules().len(), 13);
    assert_eq!(default_zygote_modules()[12], "orjson");
    assert_eq!(cfg.python_lib_paths, default_python_lib_paths());
    assert_eq!(default_python_lib_paths()[0], "/usr/local/lib/python3.12");
    assert_eq!(default_python_lib_paths().len(), 8);
    assert_eq!(cfg.nodejs_lib_paths, default_nodejs_lib_paths());
    assert_eq!(default_nodejs_lib_paths()[3], "/etc/hosts");
    assert!(cfg.proxy.proxy_env_vars().is_empty());
}

#[test]
fn given_settings_are_kept() {
    let mut file = minimal();
    file.sandbox_gid = Some(1000);
    file.python_zygote = Some(true);
    file.worker_timeout = Some(5);
    file.python_lib_paths = Some(vec!["/opt".to_string()]);
    let cfg = Config::from_file(file);
    assert_eq!(cfg.sandbox_gid, 1000);
    assert!(cfg.python_zygote);
    assert_eq!(cfg.worker_timeout, 5);
    assert_eq!(cfg.python_lib_paths, vec!["/opt"]);
}

#[test]
fn environment_overrides_the_file() {
    let cfg = Config::load(
        minimal(),
        &env(&[
            ("SANDBOX_PORT", "9000"),
            ("SANDBOX_API_KEY", "k2"),
            ("MAX_WORKERS", "8"),
            ("WORKER_TIMEOUT", "7"),
            ("ENABLE_NETWORK", "no"),
            ("ENABLE_PRELOAD", "yes"),
            ("PRIVILEGE", "0"),
            ("PYTHON_ZYGOTE", "1"),
            ("PYTHON_PATH", "/p"),
            ("NODEJS_PATH", "/n"),
            ("PYTHON_LIB_PATH", " /a , /b"),
            ("NODEJS_LIB_PATH", "/c"),
            ("PYTHON_MAX_AS_BYTES", "1"),
            ("NODEJS_MAX_AS_BYTES", "2"),
            ("NODEJS_MAX_OLD_SPACE_MB", "3"),
            ("NODE_MAX_OLD_SPACE_MB", "4"),
            ("SOCKS5_PROXY", "s"),
            ("HTTP_PROXY", "h"),
            ("HTTPS_PROXY", "hs"),
        ]),
    );
    assert_eq!(cfg.app.port, 9000);
    assert_eq!(cfg.app.key, "k2");
    assert_eq!(cfg.max_workers, 8);
    assert_eq!(cfg.worker_timeout, 7);
    assert!(!cfg.enable_network);
    assert!(cfg.enable_preload);
    assert!(!cfg.privilege);
    assert!(cfg.python_zygote);
    assert_eq!(cfg.python_path, "/p");
    assert_eq!(cfg.nodejs_path, "/n");
    assert_eq!(cfg.python_lib_paths, vec!["/a", "/b"]);
    assert_eq!(cfg.nodejs_lib_paths, vec!["/c"]);
    assert_eq!(cfg.python_max_as_bytes, 1);
    assert_eq!(cfg.nodejs_max_as_bytes, 2);
    assert_eq!(cfg.nodejs_max_old_space_mb, 4);
    assert_eq!(cfg.proxy.socks5, "s");
    assert_eq!(cfg.proxy.http, "h");
    assert_eq!(cfg.proxy.https, "hs");
    // Neither has a variable.
    assert_eq!(cfg.sandbox_uid, 65537);
    assert_eq!(cfg.sandbox_gid, 65537);
}

#[test]
fn unusable_numbers_are_ignored() {
    let cfg = Config::load(
        minimal(),
        &env(&[
            ("SANDBOX_PORT", "65536"),
            ("MAX_WORKERS", "-1"),
            ("WORKER_TIMEOUT", " 7"),
            ("PYTHON_MAX_AS_BYTES", ""),
            ("NODEJS_MAX_AS_BYTES", "18446744073709551616"),
            ("NODE_MAX_OLD_SPACE_MB", "x"),
            ("ENABLE_NETWORK", "TRUE"),
        ]),
    );
    assert_eq!(cfg.app.port, 8194);
    assert_eq!(cfg.max_workers, 4);
    assert_eq!(cfg.worker_timeout, 30);
    assert_eq!(cfg.python_max_as_bytes, 268435456);
    assert_eq!(cfg.nodejs_max_as_bytes, 536870912);
    assert_eq!(cfg.nodejs_max_old_space_mb, 768);
    assert!(!cfg.enable_network);
}

#[test]
fn overriding_twice_changes_nothing_more() {
    let vars = env(&[("MAX_WORKERS", "+9"), ("PYTHON_LIB_PATH", "")]);
    let mut cfg = Config::load(minimal(), &vars);
    assert_eq!(cfg.max_workers, 9);
    assert_eq!(cfg.python_lib_paths, vec![""]);
    cfg.override_with_env(&vars);
    assert_eq!(cfg.max_workers, 9);
    assert_eq!(cfg.python_lib_paths, vec![""]);
}

#[test]
fn an_empty_environment_overrides_nothing() {
    let mut cfg = Config::from_file(minimal());
    cfg.override_with_env(&env(&[]));
    assert_eq!(cfg.app.port, 8194);
    assert_eq!(cfg.sandbox_gid, 65537);
    assert_eq!(cfg.python_path, "/usr/local/bin/python3");
}

#[test]
fn socks5_takes_precedence_over_other_proxies() {
    let proxy = |s: &str, h: &str, hs: &str| ProxyConfig {
        socks5: s.to_string(),
        http: h.to_string(),
        https: hs.to_string(),
    };
    assert_eq!(
        proxy("s", "h", "hs").proxy_env_vars(),
        vec![("HTTPS_PROXY", "s"), ("HTTP_PROXY", "s")]
    );
    assert_eq!(
        proxy("", "h", "hs").proxy_env_vars(),
        vec![("HTTPS_PROXY", "hs"), ("HTTP_PROXY", "h")]
    );
    assert_eq!(proxy("", "h", "").proxy_env_vars(), vec![("HTTP_PROXY", "h")]);
    assert!(proxy("", "", "").proxy_env_vars().is_empty());
    assert_eq!(proxy("s", "", "").socks5_option(), Some(&"s".to_string()));
    assert_eq!(proxy("s", "", "").http_option(), None);
    assert_eq!(proxy("s", "", "hs").https_option(), Some(&"hs".to_string()));
    assert!(ProxyConfig::default().socks5_option().is_none());
}

#[test]
fn the_first_of_two_variables_counts() {
    let vars = env(&[("A", "1"), ("A", "2"), ("B", "3")]);
    assert_eq!(vars.var("A").map(|s| s.as_str()), Some("1"));
    assert_eq!(vars.var("B").map(|s| s.as_str()), Some("3"));
    assert_eq!(vars.var("C"), None);
}
