//! Configuration: a file with defaults, overridden by environment variables.

use vstd::prelude::*;

use crate::environ;
use crate::environ::Environment;
use crate::text;
use crate::text::{parse_unsigned, same_text, split, trim};

verus! {

pub struct ProxyConfig {
    pub socks5: String,
    pub http: String,
    pub https: String,
}

#[verifier::ext_equal]
pub ghost struct ProxyModel {
    pub socks5: Seq<char>,
    pub http: Seq<char>,
    pub https: Seq<char>,
}

impl View for ProxyConfig {
    type V = ProxyModel;

    open spec fn view(&self) -> ProxyModel {
        ProxyModel { socks5: self.socks5@, http: self.http@, https: self.https@ }
    }
}

/// The proxy variables of a child process. A SOCKS5 proxy takes precedence: HTTP and HTTPS
/// both use it. Otherwise each of the two is set if it is configured.
pub open spec fn proxy_vars(proxy: ProxyModel) -> Seq<(Seq<char>, Seq<char>)> {
    if proxy.socks5.len() > 0 {
        seq![("HTTPS_PROXY"@, proxy.socks5), ("HTTP_PROXY"@, proxy.socks5)]
    } else {
        let https = if proxy.https.len() > 0 {
            seq![("HTTPS_PROXY"@, proxy.https)]
        } else {
            Seq::empty()
        };
        let http = if proxy.http.len() > 0 {
            seq![("HTTP_PROXY"@, proxy.http)]
        } else {
            Seq::empty()
        };
        https + http
    }
}

pub open spec fn borrowed_pairs(list: Seq<(&str, &str)>) -> Seq<(Seq<char>, Seq<char>)> {
    list.map_values(|p: (&str, &str)| (p.0@, p.1@))
}

impl ProxyConfig {
    pub fn socks5_option(&self) -> (res: Option<&String>)
        ensures
            res == (if self@.socks5.len() == 0 {
                None
            } else {
                Some(&self.socks5)
            }),
    {
        if self.socks5.as_str().is_empty() {
            None
        } else {
            Some(&self.socks5)
        }
    }

    pub fn http_option(&self) -> (res: Option<&String>)
        ensures
            res == (if self@.http.len() == 0 {
                None
            } else {
                Some(&self.http)
            }),
    {
        if self.http.as_str().is_empty() {
            None
        } else {
            Some(&self.http)
        }
    }

    pub fn https_option(&self) -> (res: Option<&String>)
        ensures
            res == (if self@.https.len() == 0 {
                None
            } else {
                Some(&self.https)
            }),
    {
        if self.https.as_str().is_empty() {
            None
        } else {
            Some(&self.https)
        }
    }

    /// Returns the proxy environment variables to inject into a child process.
    /// Socks5 takes precedence: if set, both HTTP and HTTPS use it.
    pub fn proxy_env_vars(&self) -> (res: Vec<(&str, &str)>)
        ensures
            borrowed_pairs(res@) == proxy_vars(self@),
    {
        let mut vars: Vec<(&str, &str)> = Vec::new();
        if let Some(socks5) = self.socks5_option() {
            vars.push(("HTTPS_PROXY", socks5.as_str()));
            vars.push(("HTTP_PROXY", socks5.as_str()));
            assert(borrowed_pairs(vars@) =~= proxy_vars(self@));
            return vars;
        }
        if let Some(h) = self.https_option() {
            vars.push(("HTTPS_PROXY", h.as_str()));
        }
        if let Some(h) = self.http_option() {
            vars.push(("HTTP_PROXY", h.as_str()));
        }
        assert(borrowed_pairs(vars@) =~= proxy_vars(self@));
        vars
    }
}

pub struct AppConfig {
    pub port: u16,
    pub debug: bool,
    pub key: String,
}

#[verifier::ext_equal]
pub ghost struct AppModel {
    pub port: nat,
    pub debug: bool,
    pub key: Seq<char>,
}

impl View for AppConfig {
    type V = AppModel;

    open spec fn view(&self) -> AppModel {
        AppModel { port: self.port as nat, debug: self.debug, key: self.key@ }
    }
}

pub struct Config {
    pub app: AppConfig,
    pub max_workers: usize,
    pub worker_timeout: u64,
    pub enable_network: bool,
    pub enable_preload: bool,
    /// When false, runtime pip install and chroot jail setup are skipped (expected to be
    /// baked into the container image), and the sandbox applies Landlock in place of
    /// chroot and the privilege drop.
    pub privilege: bool,
    /// Use a pre-warmed zygote for Python.
    pub python_zygote: bool,
    /// Modules pre-imported in the zygote at startup.
    pub python_zygote_preload_modules: Vec<String>,
    pub python_path: String,
    pub nodejs_path: String,
    pub python_lib_paths: Vec<String>,
    pub nodejs_lib_paths: Vec<String>,
    pub sandbox_user: String,
    pub sandbox_uid: u32,
    pub sandbox_gid: u32,
    /// Per-request address space cap in bytes (RLIMIT_AS). 0 disables.
    pub python_max_as_bytes: u64,
    pub nodejs_max_as_bytes: u64,
    /// V8 --max-old-space-size in MB (JS heap cap).
    pub nodejs_max_old_space_mb: u32,
    pub proxy: ProxyConfig,
}

/// The contents of a [`Config`].
#[verifier::ext_equal]
pub ghost struct ConfigModel {
    pub app: AppModel,
    pub max_workers: nat,
    pub worker_timeout: nat,
    pub enable_network: bool,
    pub enable_preload: bool,
    pub privilege: bool,
    pub python_zygote: bool,
    pub python_zygote_preload_modules: Seq<Seq<char>>,
    pub python_path: Seq<char>,
    pub nodejs_path: Seq<char>,
    pub python_lib_paths: Seq<Seq<char>>,
    pub nodejs_lib_paths: Seq<Seq<char>>,
    pub sandbox_user: Seq<char>,
    pub sandbox_uid: nat,
    pub sandbox_gid: nat,
    pub python_max_as_bytes: nat,
    pub nodejs_max_as_bytes: nat,
    pub nodejs_max_old_space_mb: nat,
    pub proxy: ProxyModel,
}

impl View for Config {
    type V = ConfigModel;

    open spec fn view(&self) -> ConfigModel {
        ConfigModel {
            app: self.app@,
            max_workers: self.max_workers as nat,
            worker_timeout: self.worker_timeout as nat,
            enable_network: self.enable_network,
            enable_preload: self.enable_preload,
            privilege: self.privilege,
            python_zygote: self.python_zygote,
            python_zygote_preload_modules: text::texts(self.python_zygote_preload_modules@),
            python_path: self.python_path@,
            nodejs_path: self.nodejs_path@,
            python_lib_paths: text::texts(self.python_lib_paths@),
            nodejs_lib_paths: text::texts(self.nodejs_lib_paths@),
            sandbox_user: self.sandbox_user@,
            sandbox_uid: self.sandbox_uid as nat,
            sandbox_gid: self.sandbox_gid as nat,
            python_max_as_bytes: self.python_max_as_bytes as nat,
            nodejs_max_as_bytes: self.nodejs_max_as_bytes as nat,
            nodejs_max_old_space_mb: self.nodejs_max_old_space_mb as nat,
            proxy: self.proxy@,
        }
    }
}

/// A configuration file: the settings that it gives.
pub struct ConfigFile {
    pub app: AppConfig,
    pub max_workers: Option<usize>,
    pub worker_timeout: Option<u64>,
    pub enable_network: Option<bool>,
    pub enable_preload: Option<bool>,
    pub privilege: Option<bool>,
    pub python_zygote: Option<bool>,
    pub python_zygote_preload_modules: Option<Vec<String>>,
    pub python_path: Option<String>,
    pub nodejs_path: Option<String>,
    pub python_lib_paths: Option<Vec<String>>,
    pub nodejs_lib_paths: Option<Vec<String>>,
    pub sandbox_user: Option<String>,
    pub sandbox_uid: Option<u32>,
    pub sandbox_gid: Option<u32>,
    pub python_max_as_bytes: Option<u64>,
    pub nodejs_max_as_bytes: Option<u64>,
    pub nodejs_max_old_space_mb: Option<u32>,
    pub proxy: Option<ProxyConfig>,
}

/// What a file without a given setting leaves it at.
pub open spec fn zygote_module_defaults() -> Seq<Seq<char>> {
    seq![
        "json"@,
        "re"@,
        "math"@,
        "datetime"@,
        "collections"@,
        "itertools"@,
        "functools"@,
        "base64"@,
        "hashlib"@,
        "random"@,
        "decimal"@,
        "string"@,
        "orjson"@,
    ]
}

pub open spec fn python_lib_path_defaults() -> Seq<Seq<char>> {
    seq![
        "/usr/local/lib/python3.12"@,
        "/usr/lib/python3"@,
        "/usr/lib/x86_64-linux-gnu"@,
        "/etc/ssl/certs/ca-certificates.crt"@,
        "/etc/nsswitch.conf"@,
        "/etc/hosts"@,
        "/etc/resolv.conf"@,
        "/etc/localtime"@,
    ]
}

pub open spec fn nodejs_lib_path_defaults() -> Seq<Seq<char>> {
    seq![
        "/etc/ssl/certs/ca-certificates.crt"@,
        "/etc/nsswitch.conf"@,
        "/etc/resolv.conf"@,
        "/etc/hosts"@,
    ]
}

/// The settings of a file, with the default in place of each that it does not give.
pub open spec fn with_defaults(file: ConfigFile) -> ConfigModel {
    ConfigModel {
        app: file.app@,
        max_workers: match file.max_workers {
            Some(v) => v as nat,
            None => 4,
        },
        worker_timeout: match file.worker_timeout {
            Some(v) => v as nat,
            None => 30,
        },
        enable_network: match file.enable_network {
            Some(v) => v,
            None => true,
        },
        enable_preload: match file.enable_preload {
            Some(v) => v,
            None => false,
        },
        privilege: match file.privilege {
            Some(v) => v,
            None => true,
        },
        python_zygote: match file.python_zygote {
            Some(v) => v,
            None => false,
        },
        python_zygote_preload_modules: match file.python_zygote_preload_modules {
            Some(v) => text::texts(v@),
            None => zygote_module_defaults(),
        },
        python_path: match file.python_path {
            Some(v) => v@,
            None => "/usr/local/bin/python3"@,
        },
        nodejs_path: match file.nodejs_path {
            Some(v) => v@,
            None => "/usr/bin/node"@,
        },
        python_lib_paths: match file.python_lib_paths {
            Some(v) => text::texts(v@),
            None => python_lib_path_defaults(),
        },
        nodejs_lib_paths: match file.nodejs_lib_paths {
            Some(v) => text::texts(v@),
            None => nodejs_lib_path_defaults(),
        },
        sandbox_user: match file.sandbox_user {
            Some(v) => v@,
            None => Seq::empty(),
        },
        sandbox_uid: match file.sandbox_uid {
            Some(v) => v as nat,
            None => 65537,
        },
        sandbox_gid: match file.sandbox_gid {
            Some(v) => v as nat,
            None => 65537,
        },
        python_max_as_bytes: match file.python_max_as_bytes {
            Some(v) => v as nat,
            None => 256 * 1024 * 1024,
        },
        nodejs_max_as_bytes: match file.nodejs_max_as_bytes {
            Some(v) => v as nat,
            None => 512 * 1024 * 1024,
        },
        nodejs_max_old_space_mb: match file.nodejs_max_old_space_mb {
            Some(v) => v as nat,
            None => 768,
        },
        proxy: match file.proxy {
            Some(v) => v@,
            None => no_proxy(),
        },
    }
}

pub open spec fn no_proxy() -> ProxyModel {
    ProxyModel { socks5: Seq::empty(), http: Seq::empty(), https: Seq::empty() }
}

impl Default for ProxyConfig {
    fn default() -> (res: Self)
        ensures
            res@ == no_proxy(),
    {
        ProxyConfig { socks5: String::new(), http: String::new(), https: String::new() }
    }
}

pub fn default_max_workers() -> (res: usize)
    ensures
        res == 4,
{
    4
}

pub fn default_worker_timeout() -> (res: u64)
    ensures
        res == 30,
{
    30
}

pub fn default_true() -> (res: bool)
    ensures
        res,
{
    true
}

pub fn default_python_path() -> (res: String)
    ensures
        res@ == "/usr/local/bin/python3"@,
{
    "/usr/local/bin/python3".to_owned()
}

pub fn default_nodejs_path() -> (res: String)
    ensures
        res@ == "/usr/bin/node"@,
{
    "/usr/bin/node".to_owned()
}

pub fn default_zygote_modules() -> (res: Vec<String>)
    ensures
        text::texts(res@) == zygote_module_defaults(),
{
    let mut res: Vec<String> = Vec::new();
    res.push("json".to_owned());
    res.push("re".to_owned());
    res.push("math".to_owned());
    res.push("datetime".to_owned());
    res.push("collections".to_owned());
    res.push("itertools".to_owned());
    res.push("functools".to_owned());
    res.push("base64".to_owned());
    res.push("hashlib".to_owned());
    res.push("random".to_owned());
    res.push("decimal".to_owned());
    res.push("string".to_owned());
    res.push("orjson".to_owned());
    assert(text::texts(res@) =~= zygote_module_defaults());
    res
}

pub fn default_sandbox_uid() -> (res: u32)
    ensures
        res == 65537,
{
    65537
}

/// Non-root group. Never 0.
pub fn default_sandbox_gid() -> (res: u32)
    ensures
        res == 65537,
{
    65537
}

pub fn default_python_max_as_bytes() -> (res: u64)
    ensures
        res == 256 * 1024 * 1024,
{
    256 * 1024 * 1024
}

pub fn default_nodejs_max_as_bytes() -> (res: u64)
    ensures
        res == 512 * 1024 * 1024,
{
    512 * 1024 * 1024
}

pub fn default_nodejs_max_old_space_mb() -> (res: u32)
    ensures
        res == 768,
{
    768
}

pub fn default_python_lib_paths() -> (res: Vec<String>)
    ensures
        text::texts(res@) == python_lib_path_defaults(),
{
    let mut res: Vec<String> = Vec::new();
    res.push("/usr/local/lib/python3.12".to_owned());
    res.push("/usr/lib/python3".to_owned());
    res.push("/usr/lib/x86_64-linux-gnu".to_owned());
    res.push("/etc/ssl/certs/ca-certificates.crt".to_owned());
    res.push("/etc/nsswitch.conf".to_owned());
    res.push("/etc/hosts".to_owned());
    res.push("/etc/resolv.conf".to_owned());
    res.push("/etc/localtime".to_owned());
    assert(text::texts(res@) =~= python_lib_path_defaults());
    res
}

pub fn default_nodejs_lib_paths() -> (res: Vec<String>)
    ensures
        text::texts(res@) == nodejs_lib_path_defaults(),
{
    let mut res: Vec<String> = Vec::new();
    res.push("/etc/ssl/certs/ca-certificates.crt".to_owned());
    res.push("/etc/nsswitch.conf".to_owned());
    res.push("/etc/resolv.conf".to_owned());
    res.push("/etc/hosts".to_owned());
    assert(text::texts(res@) =~= nodejs_lib_path_defaults());
    res
}

/// Whether the value of a flag variable switches it on.
pub open spec fn is_truthy(value: Seq<char>) -> bool {
    value == "1"@ || value == "true"@ || value == "yes"@
}

/// The trimmed items of a comma-separated list.
pub open spec fn path_list(value: Seq<char>) -> Seq<Seq<char>> {
    text::split_at(value, ',').map_values(|s: Seq<char>| text::trimmed(s))
}

/// The value of a numeric setting: that of the variable, if it is set and parses as a
/// number of at most `max`, else `current`.
pub open spec fn number_setting(
    env: Seq<(Seq<char>, Seq<char>)>,
    name: Seq<char>,
    max: nat,
    current: nat,
) -> nat {
    match environ::lookup(env, name) {
        Some(v) => match text::unsigned_value(v, max) {
            Some(n) => n,
            None => current,
        },
        None => current,
    }
}

pub open spec fn text_setting(
    env: Seq<(Seq<char>, Seq<char>)>,
    name: Seq<char>,
    current: Seq<char>,
) -> Seq<char> {
    match environ::lookup(env, name) {
        Some(v) => v,
        None => current,
    }
}

pub open spec fn flag_setting(
    env: Seq<(Seq<char>, Seq<char>)>,
    name: Seq<char>,
    current: bool,
) -> bool {
    match environ::lookup(env, name) {
        Some(v) => is_truthy(v),
        None => current,
    }
}

pub open spec fn paths_setting(
    env: Seq<(Seq<char>, Seq<char>)>,
    name: Seq<char>,
    current: Seq<Seq<char>>,
) -> Seq<Seq<char>> {
    match environ::lookup(env, name) {
        Some(v) => path_list(v),
        None => current,
    }
}

/// The settings after the environment has overridden them. A numeric variable that does
/// not parse is ignored; of the two names of the V8 heap cap the older one counts last.
pub open spec fn overridden(c: ConfigModel, env: Seq<(Seq<char>, Seq<char>)>) -> ConfigModel {
    ConfigModel {
        app: AppModel {
            port: number_setting(env, "SANDBOX_PORT"@, u16::MAX as nat, c.app.port),
            key: text_setting(env, "SANDBOX_API_KEY"@, c.app.key),
            ..c.app
        },
        max_workers: number_setting(env, "MAX_WORKERS"@, usize::MAX as nat, c.max_workers),
        worker_timeout: number_setting(env, "WORKER_TIMEOUT"@, u64::MAX as nat, c.worker_timeout),
        enable_network: flag_setting(env, "ENABLE_NETWORK"@, c.enable_network),
        enable_preload: flag_setting(env, "ENABLE_PRELOAD"@, c.enable_preload),
        privilege: flag_setting(env, "PRIVILEGE"@, c.privilege),
        python_zygote: flag_setting(env, "PYTHON_ZYGOTE"@, c.python_zygote),
        python_path: text_setting(env, "PYTHON_PATH"@, c.python_path),
        nodejs_path: text_setting(env, "NODEJS_PATH"@, c.nodejs_path),
        python_lib_paths: paths_setting(env, "PYTHON_LIB_PATH"@, c.python_lib_paths),
        nodejs_lib_paths: paths_setting(env, "NODEJS_LIB_PATH"@, c.nodejs_lib_paths),
        python_max_as_bytes: number_setting(
            env,
            "PYTHON_MAX_AS_BYTES"@,
            u64::MAX as nat,
            c.python_max_as_bytes,
        ),
        nodejs_max_as_bytes: number_setting(
            env,
            "NODEJS_MAX_AS_BYTES"@,
            u64::MAX as nat,
            c.nodejs_max_as_bytes,
        ),
        nodejs_max_old_space_mb: number_setting(
            env,
            "NODE_MAX_OLD_SPACE_MB"@,
            u32::MAX as nat,
            number_setting(
                env,
                "NODEJS_MAX_OLD_SPACE_MB"@,
                u32::MAX as nat,
                c.nodejs_max_old_space_mb,
            ),
        ),
        proxy: ProxyModel {
            socks5: text_setting(env, "SOCKS5_PROXY"@, c.proxy.socks5),
            http: text_setting(env, "HTTP_PROXY"@, c.proxy.http),
            https: text_setting(env, "HTTPS_PROXY"@, c.proxy.https),
        },
        ..c
    }
}

fn truthy(value: &str) -> (res: bool)
    ensures
        res == is_truthy(value@),
{
    same_text(value, "1") || same_text(value, "true") || same_text(value, "yes")
}

fn parse_path_list(value: &str) -> (res: Vec<String>)
    ensures
        text::texts(res@) == path_list(value@),
{
    let parts = split(value, ',');
    let mut res: Vec<String> = Vec::new();
    let mut i: usize = 0;
    while i < parts.len()
        invariant
            i <= parts@.len(),
            text::texts(parts@) == text::split_at(value@, ','),
            text::texts(res@) == path_list(value@).take(i as int),
        decreases parts@.len() - i,
    {
        let item = trim(parts[i].as_str());
        assert(text::texts(parts@)[i as int] == parts@[i as int]@);
        let ghost before = res@;
        res.push(item);
        assert(text::texts(res@) =~= text::texts(before).push(item@));
        assert(path_list(value@).take(i + 1) =~= path_list(value@).take(i as int).push(item@));
        i = i + 1;
    }
    assert(path_list(value@).take(i as int) =~= path_list(value@));
    res
}

fn number_override(env: &Environment, name: &str, max: u64, current: u64) -> (res: u64)
    requires
        current <= max,
    ensures
        res == number_setting(env@, name@, max as nat, current as nat),
        res <= max,
{
    match env.var(name) {
        Some(v) => match parse_unsigned(v.as_str(), max) {
            Some(n) => n,
            None => current,
        },
        None => current,
    }
}

fn text_override(env: &Environment, name: &str, current: &mut String)
    ensures
        final(current)@ == text_setting(env@, name@, old(current)@),
{
    if let Some(v) = env.var(name) {
        *current = v.clone();
    }
}

fn flag_override(env: &Environment, name: &str, current: bool) -> (res: bool)
    ensures
        res == flag_setting(env@, name@, current),
{
    match env.var(name) {
        Some(v) => truthy(v.as_str()),
        None => current,
    }
}

fn paths_override(env: &Environment, name: &str, current: &mut Vec<String>)
    ensures
        text::texts(final(current)@) == paths_setting(env@, name@, text::texts(old(current)@)),
{
    if let Some(v) = env.var(name) {
        *current = parse_path_list(v.as_str());
    }
}

impl Config {
    /// Fills in the defaults.
    pub fn from_file(file: ConfigFile) -> (res: Self)
        ensures
            res@ == with_defaults(file),
    {
        Config {
            app: file.app,
            max_workers: match file.max_workers {
                Some(v) => v,
                None => default_max_workers(),
            },
            worker_timeout: match file.worker_timeout {
                Some(v) => v,
                None => default_worker_timeout(),
            },
            enable_network: match file.enable_network {
                Some(v) => v,
                None => default_true(),
            },
            enable_preload: match file.enable_preload {
                Some(v) => v,
                None => false,
            },
            privilege: match file.privilege {
                Some(v) => v,
                None => default_true(),
            },
            python_zygote: match file.python_zygote {
                Some(v) => v,
                None => false,
            },
            python_zygote_preload_modules: match file.python_zygote_preload_modules {
                Some(v) => v,
                None => default_zygote_modules(),
            },
            python_path: match file.python_path {
                Some(v) => v,
                None => default_python_path(),
            },
            nodejs_path: match file.nodejs_path {
                Some(v) => v,
                None => default_nodejs_path(),
            },
            python_lib_paths: match file.python_lib_paths {
                Some(v) => v,
                None => default_python_lib_paths(),
            },
            nodejs_lib_paths: match file.nodejs_lib_paths {
                Some(v) => v,
                None => default_nodejs_lib_paths(),
            },
            sandbox_user: match file.sandbox_user {
                Some(v) => v,
                None => String::new(),
            },
            sandbox_uid: match file.sandbox_uid {
                Some(v) => v,
                None => default_sandbox_uid(),
            },
            sandbox_gid: match file.sandbox_gid {
                Some(v) => v,
                None => default_sandbox_gid(),
            },
            python_max_as_bytes: match file.python_max_as_bytes {
                Some(v) => v,
                None => default_python_max_as_bytes(),
            },
            nodejs_max_as_bytes: match file.nodejs_max_as_bytes {
                Some(v) => v,
                None => default_nodejs_max_as_bytes(),
            },
            nodejs_max_old_space_mb: match file.nodejs_max_old_space_mb {
                Some(v) => v,
                None => default_nodejs_max_old_space_mb(),
            },
            proxy: match file.proxy {
                Some(v) => v,
                None => ProxyConfig::default(),
            },
        }
    }

    /// The configuration of a file, overridden by the environment.
    pub fn load(file: ConfigFile, env: &Environment) -> (res: Self)
        ensures
            res@ == overridden(with_defaults(file), env@),
    {
        let mut config = Config::from_file(file);
        config.override_with_env(env);
        config
    }

    /// Overrides settings with environment variables.
    pub fn override_with_env(&mut self, env: &Environment)
        ensures
            final(self)@ == overridden(old(self)@, env@),
    {
        self.app.port = number_override(
            env,
            "SANDBOX_PORT",
            u16::MAX as u64,
            self.app.port as u64,
        ) as u16;
        text_override(env, "SANDBOX_API_KEY", &mut self.app.key);
        self.max_workers = number_override(
            env,
            "MAX_WORKERS",
            usize::MAX as u64,
            self.max_workers as u64,
        ) as usize;
        self.worker_timeout = number_override(env, "WORKER_TIMEOUT", u64::MAX, self.worker_timeout);
        self.enable_network = flag_override(env, "ENABLE_NETWORK", self.enable_network);
        self.enable_preload = flag_override(env, "ENABLE_PRELOAD", self.enable_preload);
        self.privilege = flag_override(env, "PRIVILEGE", self.privilege);
        self.python_zygote = flag_override(env, "PYTHON_ZYGOTE", self.python_zygote);
        text_override(env, "PYTHON_PATH", &mut self.python_path);
        text_override(env, "NODEJS_PATH", &mut self.nodejs_path);
        paths_override(env, "PYTHON_LIB_PATH", &mut self.python_lib_paths);
        paths_override(env, "NODEJS_LIB_PATH", &mut self.nodejs_lib_paths);
        self.python_max_as_bytes = number_override(
            env,
            "PYTHON_MAX_AS_BYTES",
            u64::MAX,
            self.python_max_as_bytes,
        );
        self.nodejs_max_as_bytes = number_override(
            env,
            "NODEJS_MAX_AS_BYTES",
            u64::MAX,
            self.nodejs_max_as_bytes,
        );
        self.nodejs_max_old_space_mb = number_override(
            env,
            "NODEJS_MAX_OLD_SPACE_MB",
            u32::MAX as u64,
            self.nodejs_max_old_space_mb as u64,
        ) as u32;
        self.nodejs_max_old_space_mb = number_override(
            env,
            "NODE_MAX_OLD_SPACE_MB",
            u32::MAX as u64,
            self.nodejs_max_old_space_mb as u64,
        ) as u32;
        text_override(env, "SOCKS5_PROXY", &mut self.proxy.socks5);
        text_override(env, "HTTP_PROXY", &mut self.proxy.http);
        text_override(env, "HTTPS_PROXY", &mut self.proxy.https);
    }
}

/// A file that does not give the sandbox group never ends up with the root group, whatever
/// the environment holds, and the environment changes neither the user nor the group.
pub proof fn omitted_group_is_not_root(file: ConfigFile, env: Seq<(Seq<char>, Seq<char>)>)
    ensures
        file.sandbox_gid is None ==> overridden(with_defaults(file), env).sandbox_gid == 65537,
        file.sandbox_gid matches Some(gid) ==> overridden(with_defaults(file), env).sandbox_gid
            == gid,
        overridden(with_defaults(file), env).sandbox_uid == with_defaults(file).sandbox_uid,
{
}

/// Overriding twice with one environment is overriding once.
pub proof fn overriding_is_idempotent(c: ConfigModel, env: Seq<(Seq<char>, Seq<char>)>)
    ensures
        overridden(overridden(c, env), env) == overridden(c, env),
{
}

/// An empty environment overrides nothing.
pub proof fn empty_environment_overrides_nothing(c: ConfigModel)
    ensures
        overridden(c, Seq::empty()) == c,
{
}

/// With a SOCKS5 proxy both variables name it, whatever else is configured.
pub proof fn socks5_takes_precedence(proxy: ProxyModel)
    requires
        proxy.socks5.len() > 0,
    ensures
        proxy_vars(proxy).contains(("HTTP_PROXY"@, proxy.socks5)),
        proxy_vars(proxy).contains(("HTTPS_PROXY"@, proxy.socks5)),
        forall|i: int|
            0 <= i < proxy_vars(proxy).len() ==> (#[trigger] proxy_vars(proxy)[i]).1
                == proxy.socks5,
{
    assert(proxy_vars(proxy)[0] == ("HTTPS_PROXY"@, proxy.socks5));
    assert(proxy_vars(proxy)[1] == ("HTTP_PROXY"@, proxy.socks5));
}

/// A flag whose variable is set is on if the value is `1`, `true` or `yes`, and off
/// otherwise. One whose variable is not set is as in the file, and if it is not there
/// network access and privileges are on, preloaded code and the zygote off.
pub proof fn flags_follow_their_variables(file: ConfigFile, env: &Environment, res: Config)
    requires
        call_ensures(Config::load, (file, env), res),
    ensures
        environ::lookup(env@, "ENABLE_NETWORK"@) == Some("1"@) ==> res.enable_network,
        environ::lookup(env@, "ENABLE_NETWORK"@) == Some("true"@) ==> res.enable_network,
        environ::lookup(env@, "ENABLE_NETWORK"@) == Some("yes"@) ==> res.enable_network,
        environ::lookup(env@, "ENABLE_NETWORK"@) matches Some(v) ==> v != "1"@ && v != "true"@ && v
            != "yes"@ ==> !res.enable_network,
        environ::lookup(env@, "ENABLE_NETWORK"@) is None ==> res.enable_network == (match file.enable_network {
            Some(flag) => flag,
            None => true,
        }),
        environ::lookup(env@, "ENABLE_PRELOAD"@) == Some("1"@) ==> res.enable_preload,
        environ::lookup(env@, "ENABLE_PRELOAD"@) == Some("true"@) ==> res.enable_preload,
        environ::lookup(env@, "ENABLE_PRELOAD"@) == Some("yes"@) ==> res.enable_preload,
        environ::lookup(env@, "ENABLE_PRELOAD"@) matches Some(v) ==> v != "1"@ && v != "true"@ && v
            != "yes"@ ==> !res.enable_preload,
        environ::lookup(env@, "ENABLE_PRELOAD"@) is None ==> res.enable_preload == (match file.enable_preload {
            Some(flag) => flag,
            None => false,
        }),
        environ::lookup(env@, "PRIVILEGE"@) == Some("1"@) ==> res.privilege,
        environ::lookup(env@, "PRIVILEGE"@) == Some("true"@) ==> res.privilege,
        environ::lookup(env@, "PRIVILEGE"@) == Some("yes"@) ==> res.privilege,
        environ::lookup(env@, "PRIVILEGE"@) matches Some(v) ==> v != "1"@ && v != "true"@ && v
            != "yes"@ ==> !res.privilege,
        environ::lookup(env@, "PRIVILEGE"@) is None ==> res.privilege == (match file.privilege {
            Some(flag) => flag,
            None => true,
        }),
        environ::lookup(env@, "PYTHON_ZYGOTE"@) == Some("1"@) ==> res.python_zygote,
        environ::lookup(env@, "PYTHON_ZYGOTE"@) == Some("true"@) ==> res.python_zygote,
        environ::lookup(env@, "PYTHON_ZYGOTE"@) == Some("yes"@) ==> res.python_zygote,
        environ::lookup(env@, "PYTHON_ZYGOTE"@) matches Some(v) ==> v != "1"@ && v != "true"@ && v
            != "yes"@ ==> !res.python_zygote,
        environ::lookup(env@, "PYTHON_ZYGOTE"@) is None ==> res.python_zygote == (match file.python_zygote {
            Some(flag) => flag,
            None => false,
        }),
{
}

/// A number whose variable is set to one that fits is that. Otherwise it is as in the
/// file, or the default if it is not there. The older of the two names of the V8 heap cap
/// takes precedence.
pub proof fn numbers_follow_their_variables(file: ConfigFile, env: &Environment, res: Config)
    requires
        call_ensures(Config::load, (file, env), res),
    ensures
        environ::lookup(env@, "SANDBOX_PORT"@) matches Some(v) ==> text::unsigned_value(
            v,
            65535,
        ) matches Some(n) ==> res.app.port == n,
        environ::lookup(env@, "SANDBOX_PORT"@) matches Some(v) ==> text::unsigned_value(
            v,
            65535,
        ) is None ==> res.app.port == file.app.port,
        environ::lookup(env@, "SANDBOX_PORT"@) is None ==> res.app.port == file.app.port,
        environ::lookup(env@, "MAX_WORKERS"@) matches Some(v) ==> text::unsigned_value(
            v,
            usize::MAX as nat,
        ) matches Some(n) ==> res.max_workers == n,
        environ::lookup(env@, "MAX_WORKERS"@) matches Some(v) ==> text::unsigned_value(
            v,
            usize::MAX as nat,
        ) is None ==> res.max_workers == (match file.max_workers {
            Some(n) => n,
            None => 4,
        }),
        environ::lookup(env@, "MAX_WORKERS"@) is None ==> res.max_workers == (match file.max_workers {
            Some(n) => n,
            None => 4,
        }),
        environ::lookup(env@, "WORKER_TIMEOUT"@) matches Some(v) ==> text::unsigned_value(
            v,
            u64::MAX as nat,
        ) matches Some(n) ==> res.worker_timeout == n,
        environ::lookup(env@, "WORKER_TIMEOUT"@) matches Some(v) ==> text::unsigned_value(
            v,
            u64::MAX as nat,
        ) is None ==> res.worker_timeout == (match file.worker_timeout {
            Some(n) => n,
            None => 30,
        }),
        environ::lookup(env@, "WORKER_TIMEOUT"@) is None ==> res.worker_timeout == (match file.worker_timeout {
            Some(n) => n,
            None => 30,
        }),
        environ::lookup(env@, "PYTHON_MAX_AS_BYTES"@) matches Some(v) ==> text::unsigned_value(
            v,
            u64::MAX as nat,
        ) matches Some(n) ==> res.python_max_as_bytes == n,
        environ::lookup(env@, "PYTHON_MAX_AS_BYTES"@) matches Some(v) ==> text::unsigned_value(
            v,
            u64::MAX as nat,
        ) is None ==> res.python_max_as_bytes == (match file.python_max_as_bytes {
            Some(n) => n,
            None => 268435456,
        }),
        environ::lookup(env@, "PYTHON_MAX_AS_BYTES"@) is None ==> res.python_max_as_bytes == (match file.python_max_as_bytes {
            Some(n) => n,
            None => 268435456,
        }),
        environ::lookup(env@, "NODEJS_MAX_AS_BYTES"@) matches Some(v) ==> text::unsigned_value(
            v,
            u64::MAX as nat,
        ) matches Some(n) ==> res.nodejs_max_as_bytes == n,
        environ::lookup(env@, "NODEJS_MAX_AS_BYTES"@) matches Some(v) ==> text::unsigned_value(
            v,
            u64::MAX as nat,
        ) is None ==> res.nodejs_max_as_bytes == (match file.nodejs_max_as_bytes {
            Some(n) => n,
            None => 536870912,
        }),
        environ::lookup(env@, "NODEJS_MAX_AS_BYTES"@) is None ==> res.nodejs_max_as_bytes == (match file.nodejs_max_as_bytes {
            Some(n) => n,
            None => 536870912,
        }),
        environ::lookup(env@, "NODE_MAX_OLD_SPACE_MB"@) matches Some(v) ==> text::unsigned_value(v, 4294967295) matches Some(
            n,
        ) ==> res.nodejs_max_old_space_mb == n,
        (environ::lookup(env@, "NODE_MAX_OLD_SPACE_MB"@) matches Some(v) ==> text::unsigned_value(v, 4294967295) is None) ==> (
        environ::lookup(env@, "NODEJS_MAX_OLD_SPACE_MB"@) matches Some(v) ==> text::unsigned_value(v, 4294967295) matches Some(
            n,
        ) ==> res.nodejs_max_old_space_mb == n),
        (environ::lookup(env@, "NODE_MAX_OLD_SPACE_MB"@) matches Some(v) ==> text::unsigned_value(v, 4294967295) is None) ==> (
        environ::lookup(env@, "NODEJS_MAX_OLD_SPACE_MB"@) matches Some(v) ==> text::unsigned_value(v, 4294967295) is None)
            ==> res.nodejs_max_old_space_mb == (match file.nodejs_max_old_space_mb {
            Some(n) => n,
            None => 768,
        }),
{
}

/// A text whose variable is set is that. Otherwise it is as in the file, or the default if
/// it is not there.
pub proof fn texts_follow_their_variables(file: ConfigFile, env: &Environment, res: Config)
    requires
        call_ensures(Config::load, (file, env), res),
    ensures
        environ::lookup(env@, "SANDBOX_API_KEY"@) matches Some(v) ==> res.app.key@ == v,
        environ::lookup(env@, "SANDBOX_API_KEY"@) is None ==> res.app.key@ == file.app.key@,
        environ::lookup(env@, "PYTHON_PATH"@) matches Some(v) ==> res.python_path@ == v,
        environ::lookup(env@, "PYTHON_PATH"@) is None ==> res.python_path@ == (match file.python_path {
            Some(v) => v@,
            None => "/usr/local/bin/python3"@,
        }),
        environ::lookup(env@, "NODEJS_PATH"@) matches Some(v) ==> res.nodejs_path@ == v,
        environ::lookup(env@, "NODEJS_PATH"@) is None ==> res.nodejs_path@ == (match file.nodejs_path {
            Some(v) => v@,
            None => "/usr/bin/node"@,
        }),
        environ::lookup(env@, "SOCKS5_PROXY"@) matches Some(v) ==> res.proxy.socks5@ == v,
        environ::lookup(env@, "SOCKS5_PROXY"@) is None ==> (match file.proxy {
            Some(p) => res.proxy.socks5@ == p.socks5@,
            None => res.proxy.socks5@.len() == 0,
        }),
        environ::lookup(env@, "HTTP_PROXY"@) matches Some(v) ==> res.proxy.http@ == v,
        environ::lookup(env@, "HTTP_PROXY"@) is None ==> (match file.proxy {
            Some(p) => res.proxy.http@ == p.http@,
            None => res.proxy.http@.len() == 0,
        }),
        environ::lookup(env@, "HTTPS_PROXY"@) matches Some(v) ==> res.proxy.https@ == v,
        environ::lookup(env@, "HTTPS_PROXY"@) is None ==> (match file.proxy {
            Some(p) => res.proxy.https@ == p.https@,
            None => res.proxy.https@.len() == 0,
        }),
{
}

/// A list of paths whose variable is set is made of its items, which commas separate,
/// without the white space round them. Otherwise it is as in the file, or the default if it
/// is not there. The modules come from the file or are the default.
pub proof fn lists_follow_their_variables(file: ConfigFile, env: &Environment, res: Config)
    requires
        call_ensures(Config::load, (file, env), res),
    ensures
        environ::lookup(env@, "PYTHON_LIB_PATH"@) matches Some(v) ==> {
            let items = text::split_at(v, ',');
            &&& res.python_lib_paths@.len() == items.len()
            &&& forall|i: int|
                0 <= i < items.len() ==> (#[trigger] res.python_lib_paths@[i])@ == text::trimmed(
                    items[i],
                )
        },
        environ::lookup(env@, "PYTHON_LIB_PATH"@) is None ==> text::texts(res.python_lib_paths@) == (
        match file.python_lib_paths {
            Some(list) => text::texts(list@),
            None => seq![
                "/usr/local/lib/python3.12"@,
                "/usr/lib/python3"@,
                "/usr/lib/x86_64-linux-gnu"@,
                "/etc/ssl/certs/ca-certificates.crt"@,
                "/etc/nsswitch.conf"@,
                "/etc/hosts"@,
                "/etc/resolv.conf"@,
                "/etc/localtime"@,
            ],
        }),
        environ::lookup(env@, "NODEJS_LIB_PATH"@) matches Some(v) ==> {
            let items = text::split_at(v, ',');
            &&& res.nodejs_lib_paths@.len() == items.len()
            &&& forall|i: int|
                0 <= i < items.len() ==> (#[trigger] res.nodejs_lib_paths@[i])@ == text::trimmed(
                    items[i],
                )
        },
        environ::lookup(env@, "NODEJS_LIB_PATH"@) is None ==> text::texts(res.nodejs_lib_paths@) == (
        match file.nodejs_lib_paths {
            Some(list) => text::texts(list@),
            None => seq![
                "/etc/ssl/certs/ca-certificates.crt"@,
                "/etc/nsswitch.conf"@,
                "/etc/resolv.conf"@,
                "/etc/hosts"@,
            ],
        }),
        text::texts(res.python_zygote_preload_modules@) == (
        match file.python_zygote_preload_modules {
            Some(list) => text::texts(list@),
            None => seq![
                "json"@,
                "re"@,
                "math"@,
                "datetime"@,
                "collections"@,
                "itertools"@,
                "functools"@,
                "base64"@,
                "hashlib"@,
                "random"@,
                "decimal"@,
                "string"@,
                "orjson"@,
            ],
        }),
{
    if let Some(v) = environ::lookup(env@, "PYTHON_LIB_PATH"@) {
        lemma_path_items(v, res.python_lib_paths@);
    }
    if let Some(v) = environ::lookup(env@, "NODEJS_LIB_PATH"@) {
        lemma_path_items(v, res.nodejs_lib_paths@);
    }
}

proof fn lemma_path_items(value: Seq<char>, list: Seq<String>)
    requires
        text::texts(list) == path_list(value),
    ensures
        list.len() == text::split_at(value, ',').len(),
        forall|i: int|
            0 <= i < list.len() ==> (#[trigger] list[i])@ == text::trimmed(
                text::split_at(value, ',')[i],
            ),
{
    assert(text::texts(list).len() == list.len());
    assert forall|i: int| 0 <= i < list.len() implies (#[trigger] list[i])@ == text::trimmed(
        text::split_at(value, ',')[i],
    ) by {
        assert(text::texts(list)[i] == list[i]@);
        assert(path_list(value)[i] == text::trimmed(text::split_at(value, ',')[i]));
    }
}

/// No variable has a say in who the sandbox runs as, nor in the debug flag: they are as in
/// the file, and user and group are 65537 if they are not there.
pub proof fn identity_comes_from_the_file(file: ConfigFile, env: &Environment, res: Config)
    requires
        call_ensures(Config::load, (file, env), res),
    ensures
        res.sandbox_uid == (match file.sandbox_uid {
            Some(uid) => uid,
            None => 65537,
        }),
        res.sandbox_gid == (match file.sandbox_gid {
            Some(gid) => gid,
            None => 65537,
        }),
        (match file.sandbox_user {
            Some(user) => res.sandbox_user@ == user@,
            None => res.sandbox_user@.len() == 0,
        }),
        res.app.debug == file.app.debug,
{
}

/// A file alone gives what it gives together with an empty environment.
pub proof fn files_stand_alone(file: ConfigFile, env: &Environment, alone: Config, res: Config)
    requires
        env@.len() == 0,
        call_ensures(Config::from_file, (file,), alone),
        call_ensures(Config::load, (file, env), res),
    ensures
        alone@ == res@,
{
    assert(env@ =~= Seq::empty());
    empty_environment_overrides_nothing(with_defaults(file));
}

/// The proxy that a child process is told of for HTTPS is the SOCKS5 proxy if there is one,
/// else the HTTPS proxy; likewise for HTTP. A variable without a proxy is not set, and
/// HTTPS comes first.
pub proof fn children_are_told_of_proxies(proxy: &ProxyConfig, res: Vec<(&str, &str)>)
    requires
        call_ensures(ProxyConfig::proxy_env_vars, (proxy,), res),
    ensures
        proxy.socks5@.len() > 0 ==> {
            &&& res@.len() == 2
            &&& res@[0].0@ == "HTTPS_PROXY"@ && res@[0].1@ == proxy.socks5@
            &&& res@[1].0@ == "HTTP_PROXY"@ && res@[1].1@ == proxy.socks5@
        },
        proxy.socks5@.len() == 0 && proxy.https@.len() > 0 && proxy.http@.len() > 0 ==> {
            &&& res@.len() == 2
            &&& res@[0].0@ == "HTTPS_PROXY"@ && res@[0].1@ == proxy.https@
            &&& res@[1].0@ == "HTTP_PROXY"@ && res@[1].1@ == proxy.http@
        },
        proxy.socks5@.len() == 0 && proxy.https@.len() > 0 && proxy.http@.len() == 0 ==> {
            &&& res@.len() == 1
            &&& res@[0].0@ == "HTTPS_PROXY"@ && res@[0].1@ == proxy.https@
        },
        proxy.socks5@.len() == 0 && proxy.https@.len() == 0 && proxy.http@.len() > 0 ==> {
            &&& res@.len() == 1
            &&& res@[0].0@ == "HTTP_PROXY"@ && res@[0].1@ == proxy.http@
        },
        proxy.socks5@.len() == 0 && proxy.https@.len() == 0 && proxy.http@.len() == 0
            ==> res@.len() == 0,
{
    assert(borrowed_pairs(res@).len() == res@.len());
    assert forall|i: int| 0 <= i < res@.len() implies borrowed_pairs(res@)[i] == (
        (#[trigger] res@[i]).0@,
        res@[i].1@,
    ) by {}
}

/// A proxy counts as configured if its text is not empty, and is then that text.
pub proof fn proxies_are_optional(
    proxy: &ProxyConfig,
    socks5: Option<&String>,
    http: Option<&String>,
    https: Option<&String>,
)
    requires
        call_ensures(ProxyConfig::socks5_option, (proxy,), socks5),
        call_ensures(ProxyConfig::http_option, (proxy,), http),
        call_ensures(ProxyConfig::https_option, (proxy,), https),
    ensures
        socks5 is Some <==> proxy.socks5@.len() > 0,
        socks5 matches Some(s) ==> s@ == proxy.socks5@,
        http is Some <==> proxy.http@.len() > 0,
        http matches Some(s) ==> s@ == proxy.http@,
        https is Some <==> proxy.https@.len() > 0,
        https matches Some(s) ==> s@ == proxy.https@,
{
}

} // verus!
