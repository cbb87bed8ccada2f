use base64::Engine;
use sandbox_server::command::{CommandSpec, Input, ProcessEvent};
use sandbox_server::config::{AppConfig, Config, ConfigFile};
use sandbox_server::environ::Environment;
use sandbox_server::models::RunnerOptions;
use sandbox_server::runners::python::{
    build_script, build_script_with_key, finish, run, run_with_key, PythonRun, ZygoteStatus,
};

const TEMPLATE: &str =
    "{{uid}} {{gid}} {{enable_network}} {{max_as}}\n{{preload}}run('{{code}}')\n";

fn env(vars: &[(&str, &str)]) -> Environment {
    Environment { vars: vars.iter().map(|(n, v)| (n.to_string(), v.to_string())).collect() }
}

fn config() -> Config {
    Config::from_file(ConfigFile {
        app: AppConfig { port: 8194, debug: false, key: "test".to_string() },
        max_workers: None,
        worker_timeout: None,
        enable_network: None,
        enable_preload: None,
        privilege: None,
        python_zygote: Some(true),
        python_zygote_preload_modules: None,
        python_path: None,
        nodejs_path: None,
        python_lib_paths: None,
        nodejs_lib_paths: None,
        sandbox_user: None,
        sandbox_uid: Some(10),
        sandbox_gid: Some(20),
        python_max_as_bytes: Some(30),
        nodejs_max_as_bytes: None,
        nodejs_max_old_space_mb: None,
        proxy: None,
    })
}

fn on() -> RunnerOptions {
    RunnerOptions { enable_network: true }
}

fn process(run: PythonRun) -> (CommandSpec, bool) {
    match run {
        PythonRun::Process { command, restart } => (command, restart),
        PythonRun::Zygote { .. } => panic!("in the zygote"),
    }
}

fn text(input: &Input) -> &str {
    match input {
        Input::Text(text) => text,
        _ => panic!("no text"),
    }
}

#[test]
fn python_scripts_have_their_parts_in_place() {
    let (script, key) =
        build_script_with_key(&config(), TEMPLATE, b"abc", &[1, 2], "dropped", &on());
    assert_eq!(script, "10 20 1 30\n\nrun('YGBi')\n");
    assert_eq!(key, "AQI=");
    let mut cfg = config();
    cfg.enable_preload = true;
    cfg.enable_network = false;
    let (script, _) = build_script_with_key(&cfg, TEMPLATE, b"abc", &[1, 2], "import os", &on());
    assert_eq!(script, "10 20 0 30\nimport os\nrun('YGBi')\n");
}

#[test]
fn scripts_carry_the_code_under_a_key_of_their_own() {
    let engine = base64::engine::general_purpose::STANDARD;
    let (script, key) = build_script(&config(), "{{code}}", b"print(1)", "", &on());
    let key = engine.decode(key).unwrap();
    assert_eq!(key.len(), 64);
    let dec = engine.decode(script).unwrap();
    let code: Vec<u8> = dec.iter().enumerate().map(|(i, &b)| b ^ key[i % 64]).collect();
    assert_eq!(code, b"print(1)");
}

#[test]
fn a_running_zygote_takes_the_request() {
    let vars = env(&[("PATH", "/bin")]);
    match run_with_key(
        &config(),
        TEMPLATE,
        b"abc",
        &[1, 2],
        "dropped",
        &on(),
        &vars,
        ZygoteStatus::Running,
    ) {
        PythonRun::Zygote { code_b64, key_b64, limits } => {
            assert_eq!(code_b64, "YGBi");
            assert_eq!(key_b64, "AQI=");
            assert_eq!((limits.uid, limits.gid, limits.net), (10, 20, true));
            assert_eq!((limits.max_as, limits.timeout_secs), (30, 30));
        }
        PythonRun::Process { .. } => panic!("in a process"),
    }
}

#[test]
fn without_a_zygote_a_process_is_started() {
    let vars = env(&[("PATH", "/bin"), ("HOME", "/root")]);
    for (status, restarted) in
        [(ZygoteStatus::Absent, false), (ZygoteStatus::Dead, true)]
    {
        let planned =
            run_with_key(&config(), TEMPLATE, b"abc", &[1, 2], "", &on(), &vars, status);
        let (command, restart) = process(planned);
        assert_eq!(restart, restarted);
        assert_eq!(command.program, "/usr/local/bin/python3");
        assert_eq!(command.args, vec!["-B", "-", "/usr/local/share/sandbox", "AQI="]);
        assert!(command.clear_env);
        assert_eq!(command.env, vec![("PATH".to_string(), "/bin".to_string())]);
        assert_eq!(command.cwd.as_deref(), Some("/usr/local/share/sandbox"));
        assert_eq!(text(&command.input), "10 20 1 30\n\nrun('YGBi')\n");
        assert!(command.captured && command.kill_on_drop);
        assert_eq!(command.timeout_secs, Some(30));
    }
}

#[test]
fn preloaded_code_keeps_the_request_from_the_zygote() {
    let mut cfg = config();
    cfg.enable_preload = true;
    for status in [ZygoteStatus::Running, ZygoteStatus::Dead] {
        let planned =
            run_with_key(&cfg, TEMPLATE, b"abc", &[1], "import os", &on(), &env(&[]), status);
        let (command, restart) = process(planned);
        assert!(!restart);
        assert!(text(&command.input).contains("\nimport os\n"));
    }
    let planned =
        run_with_key(&cfg, TEMPLATE, b"abc", &[1], "", &on(), &env(&[]), ZygoteStatus::Running);
    assert!(matches!(planned, PythonRun::Zygote { .. }));
    cfg.python_zygote = false;
    let planned =
        run_with_key(&cfg, TEMPLATE, b"abc", &[1], "", &on(), &env(&[]), ZygoteStatus::Dead);
    assert!(!process(planned).1);
}

#[test]
fn code_is_decoded_first() {
    let engine = base64::engine::general_purpose::STANDARD;
    let err = engine.decode("a").unwrap_err();
    match run(&config(), TEMPLATE, "a", "", &on(), &env(&[]), ZygoteStatus::Absent) {
        Err(message) => assert_eq!(message, format!("base64 decode: {err}")),
        Ok(_) => panic!("accepted"),
    }
    let planned =
        run(&config(), "{{code}}", "YWJj", "", &on(), &env(&[]), ZygoteStatus::Absent)
            .unwrap_or_else(|e| panic!("{e}"));
    let (command, _) = process(planned);
    let key = engine.decode(&command.args[3]).unwrap();
    assert_eq!(key.len(), 64);
    let dec = engine.decode(text(&command.input)).unwrap();
    let code: Vec<u8> = dec.iter().enumerate().map(|(i, &b)| b ^ key[i % 64]).collect();
    assert_eq!(code, b"abc");
}

#[test]
fn python_process_ends_become_results() {
    let result = finish(ProcessEvent::Exited {
        stdout: b"3\n".to_vec(),
        stderr: Vec::new(),
        signal: Some(31),
        code: None,
    })
    .unwrap_or_else(|e| panic!("{e}"));
    assert_eq!((result.stdout.as_str(), result.exit_code), ("3\n", -31));
    match finish(ProcessEvent::SpawnFailed("e".to_string())) {
        Err(message) => assert_eq!(message, "spawn python: e"),
        Ok(_) => panic!("a result"),
    }
}
