use base64::Engine;
use sandbox_server::command::{Input, ProcessEvent};
use sandbox_server::config::{AppConfig, Config, ConfigFile};
use sandbox_server::environ::Environment;
use sandbox_server::models::RunnerOptions;
use sandbox_server::runners;
use sandbox_server::services::nodejs::{
    build_script, finish, max_old_space_mb, run, validate_base64,
};

const TEMPLATE: &str = "init();\n{{preload}}\n{{code}}\n";

fn b64(s: &str) -> String {
    base64::engine::general_purpose::STANDARD.encode(s)
}

fn env(vars: &[(&str, &str)]) -> Environment {
    Environment { vars: vars.iter().map(|(n, v)| (n.to_string(), v.to_string())).collect() }
}

fn config() -> Config {
    Config::from_file(ConfigFile {
        app: AppConfig { port: 8194, debug: false, key: "test".to_string() },
        max_workers: None,
        worker_timeout: None,
        enable_network: None,
        enable_preload: None,
        privilege: None,
        python_zygote: None,
        python_zygote_preload_modules: None,
        python_path: None,
        nodejs_path: None,
        python_lib_paths: None,
        nodejs_lib_paths: None,
        sandbox_user: None,
        sandbox_uid: None,
        sandbox_gid: None,
        python_max_as_bytes: None,
        nodejs_max_as_bytes: None,
        nodejs_max_old_space_mb: None,
        proxy: None,
    })
}

fn text(input: &Input) -> &str {
    match input {
        Input::Text(text) => text,
        _ => panic!("no text"),
    }
}

/// If raw (unvalidated) input reached `build_script`, a payload containing a quote would
/// break out of the JS string literal.
#[test]
fn build_script_splices_raw_code_verbatim() {
    let payload = "'); globalThis.PWNED=1; //";
    let script = build_script(TEMPLATE, payload, "");
    assert!(script.contains("globalThis.PWNED=1"));
    assert!(script.contains("eval(Buffer.from('');"));
}

#[test]
fn validate_rejects_injection_payload() {
    let payload = "'); require('child_process').execSync('id'); //";
    assert!(validate_base64(payload).is_err());
}

/// Any quote/backslash/newline breaks the base64 alphabet and is rejected.
#[test]
fn validate_rejects_quote_and_control_chars() {
    assert!(validate_base64("abc'def").is_err());
    assert!(validate_base64("abc\\def").is_err());
    assert!(validate_base64("abc\ndef").is_err());
}

/// Legit base64 is accepted and round-trips to the original source.
#[test]
fn validate_accepts_valid_base64() {
    let src = "console.log('hi')";
    let canonical = validate_base64(&b64(src)).expect("valid base64");
    let back = base64::engine::general_purpose::STANDARD.decode(&canonical).unwrap();
    assert_eq!(back, src.as_bytes());
}

/// After validation, whatever `build_script` embeds is pure base64 alphabet, so the
/// resulting eval wrapper is well-formed and unbreakable.
#[test]
fn validated_code_produces_safe_wrapper() {
    let canonical = validate_base64(&b64("1+1")).unwrap();
    let script = build_script(TEMPLATE, &canonical, "");
    let expected = format!("eval(Buffer.from('{canonical}', 'base64').toString('utf-8'))");
    assert!(script.contains(&expected));
    assert!(!canonical.contains('\''));
}

#[test]
fn validation_keeps_canonical_text_and_names_the_error() {
    assert_eq!(validate_base64("MSsx").unwrap(), "MSsx");
    assert_eq!(validate_base64("").unwrap(), "");
    let err = base64::engine::general_purpose::STANDARD.decode("a").unwrap_err();
    assert_eq!(validate_base64("a").unwrap_err(), format!("invalid base64 code: {err}"));
    // Neither missing padding nor stray bits are let through.
    assert!(validate_base64("MQ").is_err());
    assert!(validate_base64("MR==").is_err());
}

#[test]
fn scripts_have_their_parts_in_place() {
    assert_eq!(
        build_script(TEMPLATE, "MSsx", "let x = 1;"),
        "init();\nlet x = 1;\neval(Buffer.from('MSsx', 'base64').toString('utf-8'))\n"
    );
    assert_eq!(build_script("no places", "MSsx", "p"), "no places");
    // Code that the preloaded code makes a place for is put there too.
    assert_eq!(
        build_script("{{preload}}", "", "{{code}}"),
        "eval(Buffer.from('', 'base64').toString('utf-8'))"
    );
}

#[test]
fn an_execution_is_one_process() {
    let mut cfg = config();
    cfg.proxy.https = "hs".to_string();
    let vars = env(&[("PATH", "/bin"), ("HOME", "/root"), ("NODE_MAX_OLD_SPACE_MB", " 64\n")]);
    let options = RunnerOptions { enable_network: true };
    let command = run(&cfg, TEMPLATE, "MSsx", "dropped", &options, &vars).unwrap();
    assert_eq!(command.program, "/usr/bin/node");
    assert_eq!(
        command.args,
        vec![
            "--max-old-space-size=64",
            "-",
            "/usr/local/share/sandbox",
            "65537",
            "65537",
            "{\"enable_network\":true,\"max_as\":536870912}",
        ]
    );
    assert!(command.clear_env);
    let pair = |n: &str, v: &str| (n.to_string(), v.to_string());
    assert_eq!(
        command.env,
        vec![
            pair("PATH", "/bin"),
            pair("UV_USE_IO_URING", "0"),
            pair("NODE_PATH", "/usr/local/share/sandbox/node_modules"),
            pair("HTTPS_PROXY", "hs"),
        ]
    );
    assert_eq!(command.cwd.as_deref(), Some("/usr/local/share/sandbox"));
    assert_eq!(
        text(&command.input),
        "init();\n\neval(Buffer.from('MSsx', 'base64').toString('utf-8'))\n"
    );
    assert!(command.captured);
    assert!(command.kill_on_drop);
    assert_eq!(command.timeout_secs, Some(30));
}

#[test]
fn code_that_is_not_base64_is_not_executed() {
    let options = RunnerOptions::default();
    let refused = run(&config(), TEMPLATE, "';", "", &options, &env(&[]));
    match refused {
        Err(message) => assert!(message.starts_with("invalid base64 code: ")),
        Ok(_) => panic!("accepted"),
    }
}

#[test]
fn network_and_preload_need_the_configuration() {
    let mut cfg = config();
    let on = RunnerOptions { enable_network: true };
    let off = RunnerOptions { enable_network: false };
    let last = |c: &Config, o: &RunnerOptions| {
        run(c, TEMPLATE, "MSsx", "p", o, &env(&[])).unwrap().args.pop().unwrap()
    };
    assert!(last(&cfg, &on).contains("\"enable_network\":true"));
    assert!(last(&cfg, &off).contains("\"enable_network\":false"));
    cfg.enable_network = false;
    assert!(last(&cfg, &on).contains("\"enable_network\":false"));
    cfg.enable_preload = true;
    let command = run(&cfg, TEMPLATE, "MSsx", "p", &on, &env(&[])).unwrap();
    assert!(text(&command.input).starts_with("init();\np\n"));
}

#[test]
fn heap_cap_parsing() {
    assert_eq!(max_old_space_mb(&env(&[])), 768);
    assert_eq!(max_old_space_mb(&env(&[("NODE_MAX_OLD_SPACE_MB", "512")])), 512);
    assert_eq!(max_old_space_mb(&env(&[("NODE_MAX_OLD_SPACE_MB", " 512 ")])), 512);
    assert_eq!(max_old_space_mb(&env(&[("NODE_MAX_OLD_SPACE_MB", "0")])), 768);
    assert_eq!(max_old_space_mb(&env(&[("NODE_MAX_OLD_SPACE_MB", "many")])), 768);
    assert_eq!(max_old_space_mb(&env(&[("NODE_MAX_OLD_SPACE_MB", "4294967296")])), 768);
}

#[test]
fn process_ends_become_results() {
    let result = finish(ProcessEvent::Exited {
        stdout: b"out\xff".to_vec(),
        stderr: b"err".to_vec(),
        signal: None,
        code: Some(3),
    })
    .unwrap_or_else(|e| panic!("{e}"));
    assert_eq!(result.stdout, "out\u{fffd}");
    assert_eq!(result.stderr, "err");
    assert_eq!(result.exit_code, 3);
    let message = |event: ProcessEvent| match finish(event) {
        Err(message) => message,
        Ok(_) => panic!("a result"),
    };
    assert_eq!(message(ProcessEvent::SpawnFailed("e".to_string())), "spawn nodejs: e");
    assert_eq!(message(ProcessEvent::InputFailed("e".to_string())), "stdin write: e");
    assert_eq!(message(ProcessEvent::TimedOut), "Execution timeout");
    assert_eq!(message(ProcessEvent::WaitFailed("e".to_string())), "process: e");
}

#[test]
fn exit_codes_follow_the_process() {
    assert_eq!(runners::exit_code_from_status(Some(31), None), -31);
    assert_eq!(runners::exit_code_from_status(None, Some(255)), 255);
    assert_eq!(runners::exit_code_from_status(None, None), -1);
}

#[test]
fn unchecked_code_is_spliced_in_as_it_is() {
    let options = RunnerOptions { enable_network: true };
    let command =
        runners::nodejs::run(&config(), TEMPLATE, "no base64", "p", &options, &env(&[]));
    assert_eq!(
        command.args,
        vec!["-", "/usr/local/share/sandbox", "65537", "65537", "{\"enable_network\":true}"]
    );
    assert_eq!(
        text(&command.input),
        "init();\n\neval(Buffer.from('no base64', 'base64').toString('utf-8'))\n"
    );
    assert_eq!(command.timeout_secs, Some(30));
}
