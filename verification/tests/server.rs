use sandbox_server::channel::JobQueue;
use sandbox_server::command::Input;
use sandbox_server::config::{AppConfig, Config, ConfigFile};
use sandbox_server::environ::Environment;
use sandbox_server::handlers::{
    dependencies_response, get_dependencies, health, language_of, run_code, run_nodejs,
    run_python, update_dependencies, update_response, DependencyStep, Language, RunStep,
};
use sandbox_server::lifecycle::{
    config_path, finish_restart, startup, try_restart_zygote, zygote_command, RestartEnd,
    RestartLatch, RestartStep, StartupStep,
};
use sandbox_server::middleware::{authenticate, UNAUTHORIZED_BODY};
use sandbox_server::models::{
    ApiResponse, ResponseData, RunCodeData, RunCodeRequest, RunnerOptions,
    UpdateDependencyRequest,
};
use sandbox_server::queue::{reply, QueueController};
use sandbox_server::runners::python::{PythonRun, ZygoteStatus};
use sandbox_server::runners::ExecutionResult;
use sandbox_server::services::is_seccomp_violation;
use sandbox_server::services::python::{
    list_python_dependencies, run_python_code, update_python_dependencies,
};
use sandbox_server::setup::dependencies::{
    install_command, install_python_dependencies, list_command, list_python_packages,
    parse_packages, parse_requirements, requirements_path, Package, PipEvent,
};
use sandbox_server::setup::env::{copy_into_jail, copy_result, prepare_environment, CopyEvent};

fn env(vars: &[(&str, &str)]) -> Environment {
    Environment { vars: vars.iter().map(|(n, v)| (n.to_string(), v.to_string())).collect() }
}

fn config() -> Config {
    Config::from_file(ConfigFile {
        app: AppConfig { port: 8194, debug: false, key: "test".to_string() },
        max_workers: None,
        worker_timeout: None,
        enable_network: None,
        enable_preload: None,
        privilege: None,
        python_zygote: None,
        python_zygote_preload_modules: Some(vec!["json".to_string()]),
        python_path: Some("/py".to_string()),
        nodejs_path: None,
        python_lib_paths: Some(vec!["/a".to_string(), "/b".to_string()]),
        nodejs_lib_paths: Some(vec!["/c".to_string()]),
        sandbox_user: None,
        sandbox_uid: None,
        sandbox_gid: None,
        python_max_as_bytes: None,
        nodejs_max_as_bytes: None,
        nodejs_max_old_space_mb: None,
        proxy: None,
    })
}

fn request(language: &str, code: &str) -> RunCodeRequest {
    RunCodeRequest {
        language: language.to_string(),
        code: code.to_string(),
        preload: String::new(),
        options: RunnerOptions::default(),
    }
}

fn result(stdout: &str, stderr: &str, exit_code: i32) -> ExecutionResult {
    ExecutionResult { stdout: stdout.to_string(), stderr: stderr.to_string(), exit_code }
}

fn output(response: &ApiResponse) -> (&str, &str) {
    match &response.data {
        Some(ResponseData::Run(data)) => (&data.stdout, &data.stderr),
        _ => panic!("no output"),
    }
}

#[test]
fn keys_are_compared_in_full() {
    let ok = |header: Option<&str>| match authenticate(header, "sandbox") {
        Ok(key) => Ok(key.0),
        Err(body) => Err(body),
    };
    assert_eq!(ok(Some("sandbox")), Ok("sandbox".to_string()));
    assert_eq!(ok(Some("sandboy")), Err(UNAUTHORIZED_BODY));
    assert_eq!(ok(Some("sandbo")), Err(UNAUTHORIZED_BODY));
    assert_eq!(ok(Some("")), Err(UNAUTHORIZED_BODY));
    assert_eq!(ok(None), Err(UNAUTHORIZED_BODY));
    assert_eq!(
        UNAUTHORIZED_BODY,
        r#"{"code":401,"message":"Invalid API key","data":null}"#
    );
}

/// Every submitted job is counted out again, in whatever order workers take them.
#[test]
fn queue_processes_concurrent_jobs() {
    let mut q = QueueController::start(4);
    assert_eq!(q.stats.workers, 4);
    let mut taken = Vec::new();
    for i in 0..50u64 {
        assert!(q.submit(i).is_ok());
        if i % 3 == 0 {
            taken.push(q.taken().unwrap().0);
            q.finished();
        }
    }
    while let Some((job, depth)) = q.taken() {
        assert_eq!(depth, 50 - taken.len());
        taken.push(job);
        q.finished();
        let response = reply(Some(ApiResponse::success(ResponseData::Updated(true))));
        assert_eq!(response.code, 0, "job should succeed");
    }
    assert_eq!(taken, (0..50).collect::<Vec<u64>>());
    assert_eq!(q.stats.queue_depth, 0, "queue_depth should return to zero");
}

#[test]
fn no_more_jobs_run_than_there_are_workers() {
    let mut q = QueueController::start(2);
    for job in [7, 5, 6, 8] {
        assert!(q.submit(job).is_ok());
    }
    assert_eq!(q.taken(), Some((7, 4)));
    assert_eq!(q.taken(), Some((5, 3)));
    assert_eq!(q.taken(), None);
    assert_eq!((q.stats.queue_depth, q.running), (2, 2));
    q.finished();
    assert_eq!(q.taken(), Some((6, 2)));
    assert_eq!(q.taken(), None);
    // A worker that is lost does not come back.
    q.lost();
    assert_eq!(q.taken(), None);
    q.finished();
    assert_eq!(q.taken(), Some((8, 1)));
    q.finished();
    assert_eq!(q.taken(), None);
    assert_eq!(q.stats.queue_depth, 0);
}

#[test]
fn a_job_that_is_not_done_is_answered_with_an_error() {
    let refused = |q: &mut QueueController| match q.submit(1) {
        Err(response) => (response.code, response.message, response.data.is_none()),
        Ok(()) => panic!("taken in"),
    };
    let expected = (500, "worker pool unavailable".to_string(), true);
    let mut none = QueueController::start(0);
    assert_eq!(refused(&mut none), expected);
    assert_eq!(none.stats.queue_depth, 0);
    assert_eq!(none.taken(), None);

    // Nor is there anyone after the last worker was lost.
    let mut q = QueueController::start(1);
    assert!(q.submit(1).is_ok());
    assert!(q.submit(2).is_ok());
    assert_eq!(q.taken(), Some((1, 2)));
    q.lost();
    assert_eq!(refused(&mut q), expected);
    assert_eq!(q.stats.queue_depth, 1);
    assert_eq!(q.taken(), None);

    let gone = reply(None);
    assert_eq!((gone.code, gone.message.as_str()), (500, "worker shut down"));
    assert!(gone.data.is_none());
}

#[test]
fn queued_jobs_come_out_in_order() {
    let mut jobs = JobQueue::new();
    assert_eq!(jobs.receive(), None);
    for job in 0..100 {
        assert!(jobs.send(job * 3));
    }
    assert_eq!(jobs.receive(), Some(0));
    jobs.close();
    assert!(!jobs.send(1));
    for job in 1..100 {
        assert_eq!(jobs.receive(), Some(job * 3));
    }
    assert_eq!(jobs.receive(), None);
}

#[test]
fn health_reports_the_queue() {
    let mut q = QueueController::start(4);
    assert!(q.submit(1).is_ok());
    let report = health(&q.stats);
    assert!(report.ok);
    assert_eq!(report.role, "sandbox");
    assert_eq!((report.queue_depth, report.workers), (1, 4));
}

#[test]
fn languages_are_told_apart_by_name() {
    assert_eq!(language_of("python3"), Some(Language::Python));
    assert_eq!(language_of("javascript"), Some(Language::JavaScript));
    assert_eq!(language_of("python"), None);
    assert_eq!(language_of(""), None);
}

#[test]
fn requests_are_dispatched_by_language() {
    let step = |language: &str, code: &str| {
        run_code(
            &config(),
            &request(language, code),
            "P {{code}}",
            "J {{code}}",
            &env(&[]),
            ZygoteStatus::Absent,
        )
    };
    match step("python3", "YWJj") {
        RunStep::Python(PythonRun::Process { command, restart }) => {
            assert_eq!(command.program, "/py");
            assert!(!restart);
            assert!(matches!(command.input, Input::Text(t) if t.starts_with("P ")));
        }
        _ => panic!("no Python"),
    }
    match step("javascript", "YWJj") {
        RunStep::Node(command) => {
            assert_eq!(command.program, "/usr/bin/node");
            assert!(matches!(command.input, Input::Text(t) if t.starts_with("J eval(")));
        }
        _ => panic!("no Node.js"),
    }
    match step("ruby", "YWJj") {
        RunStep::Answer(response) => {
            assert_eq!(response.code, 400);
            assert_eq!(response.message, "unsupported language");
            assert!(response.data.is_none());
        }
        _ => panic!("no answer"),
    }
    for (language, start) in
        [("python3", "base64 decode: "), ("javascript", "invalid base64 code: ")]
    {
        match step(language, "'") {
            RunStep::Answer(response) => {
                assert_eq!(response.code, 500);
                assert!(response.message.starts_with(start));
            }
            _ => panic!("no answer"),
        }
    }
}

#[test]
fn executions_are_answered_by_how_they_went() {
    for answer in [run_python, run_nodejs, run_python_code] {
        let ok = answer(Ok(result("3\n", "", 0)));
        assert_eq!((ok.code, ok.message.as_str()), (0, "success"));
        assert_eq!(output(&ok), ("3\n", ""));
        // A warning is no error, nor is a silent failure.
        assert_eq!(output(&answer(Ok(result("a", "warning", 0)))), ("a", "warning"));
        assert_eq!(output(&answer(Ok(result("a", "", 1)))), ("a", ""));
        let failed = answer(Ok(result("a", "Traceback", 1)));
        assert_eq!((failed.code, failed.message.as_str()), (500, "Traceback"));
        assert!(failed.data.is_none());
        for code in [159, -31] {
            let killed = answer(Ok(result("", "", code)));
            assert_eq!(killed.code, 31);
            assert_eq!(killed.message, "sandbox security policy violation");
        }
        let error = answer(Err("spawn python: e".to_string()));
        assert_eq!((error.code, error.message.as_str()), (500, "spawn python: e"));
    }
    assert!(is_seccomp_violation(159) && is_seccomp_violation(-31));
    assert!(!is_seccomp_violation(31) && !is_seccomp_violation(0));
}

#[test]
fn responses_carry_data_or_an_error() {
    let data = RunCodeData { stdout: "o".to_string(), stderr: "e".to_string() };
    let ok = ApiResponse::success(ResponseData::Run(data));
    assert_eq!((ok.code, ok.message.as_str()), (0, "success"));
    assert_eq!(output(&ok), ("o", "e"));
    let error = ApiResponse::error(400, "m".to_string());
    assert_eq!((error.code, error.message.as_str()), (400, "m"));
    assert!(error.data.is_none());
    assert!(!RunnerOptions::default().enable_network);
}

fn names(packages: &[Package]) -> Vec<(&str, &str)> {
    packages.iter().map(|p| (p.name.as_str(), p.version.as_str())).collect()
}

#[test]
fn listed_packages_are_parsed() {
    let listing = "pip==24.0\r\n  requests==2.31.0\nnot a package\na==b==c\n\n";
    assert_eq!(
        names(&parse_packages(listing)),
        vec![("pip", "24.0"), ("requests", "2.31.0"), ("a", "b==c")]
    );
    assert!(parse_packages("").is_empty());
    let exited = |success: bool| PipEvent::Exited {
        success,
        stdout: b"pip==24.0\n".to_vec(),
        stderr: b"e".to_vec(),
    };
    assert_eq!(names(&list_python_packages(exited(true))), vec![("pip", "24.0")]);
    assert!(list_python_packages(exited(false)).is_empty());
    assert!(list_python_packages(PipEvent::SpawnFailed("e".to_string())).is_empty());
    assert!(list_python_packages(PipEvent::WaitFailed("e".to_string())).is_empty());
    let command = list_command(&config());
    assert_eq!(command.program, "/py");
    assert_eq!(command.args, vec!["-m", "pip", "list", "--format=freeze"]);
    assert!(!command.clear_env);
}

#[test]
fn requirements_are_installed() {
    let file = "# packages\nrequests\n\n  jinja2==3.1 \r\n#orjson\n";
    assert_eq!(parse_requirements(file), vec!["requests", "jinja2==3.1"]);
    assert_eq!(requirements_path(), "/usr/local/share/sandbox/requirements.txt");
    let command = install_command(&config(), Some(file)).unwrap();
    assert_eq!(
        command.args,
        vec!["-m", "pip", "install", "--upgrade", "requests", "jinja2==3.1"]
    );
    assert!(install_command(&config(), Some("# nothing\n")).is_none());
    assert!(install_command(&config(), None).is_none());

    assert_eq!(install_python_dependencies(None), Ok(()));
    let exited = |success: bool| {
        Some(PipEvent::Exited { success, stdout: Vec::new(), stderr: b"no net".to_vec() })
    };
    assert_eq!(install_python_dependencies(exited(true)), Ok(()));
    assert_eq!(install_python_dependencies(exited(false)), Err("no net".to_string()));
    assert_eq!(
        install_python_dependencies(Some(PipEvent::SpawnFailed("e".to_string()))),
        Err("pip install spawn: e".to_string())
    );
    assert_eq!(
        install_python_dependencies(Some(PipEvent::WaitFailed("e".to_string()))),
        Err("pip install: e".to_string())
    );
}

#[test]
fn package_requests_are_answered() {
    assert!(matches!(get_dependencies(&config(), Some("python3")), DependencyStep::Run(_)));
    for language in [Some("javascript"), None] {
        match get_dependencies(&config(), language) {
            DependencyStep::Answer(response) => assert_eq!(response.code, 400),
            DependencyStep::Run(_) => panic!("a process"),
        }
    }
    let response = dependencies_response(PipEvent::Exited {
        success: true,
        stdout: b"pip==24.0\n".to_vec(),
        stderr: Vec::new(),
    });
    match response.data {
        Some(ResponseData::Dependencies(list)) => {
            assert_eq!(list.len(), 1);
            assert_eq!((list[0].name.as_str(), list[0].version.as_str()), ("pip", "24.0"));
        }
        _ => panic!("no packages"),
    }
    assert_eq!(list_python_dependencies(Vec::new()).code, 0);

    let update = |language: &str, file: Option<&str>| {
        update_dependencies(
            &config(),
            &UpdateDependencyRequest { language: language.to_string() },
            file,
        )
    };
    assert!(matches!(update("python3", Some("requests\n")), DependencyStep::Run(_)));
    match update("python3", None) {
        DependencyStep::Answer(response) => {
            assert_eq!(response.code, 0);
            assert!(matches!(response.data, Some(ResponseData::Updated(true))));
        }
        DependencyStep::Run(_) => panic!("a process"),
    }
    match update("javascript", Some("requests\n")) {
        DependencyStep::Answer(response) => {
            assert_eq!(response.message, "unsupported language")
        }
        DependencyStep::Run(_) => panic!("a process"),
    }
    let failed = update_response(PipEvent::Exited {
        success: false,
        stdout: Vec::new(),
        stderr: b"no net".to_vec(),
    });
    assert_eq!((failed.code, failed.message.as_str()), (500, "no net"));
    assert_eq!(update_python_dependencies(Ok(())).code, 0);
}

#[test]
fn paths_are_copied_into_the_jail() {
    assert_eq!(prepare_environment(&config()), vec!["/a", "/b", "/c"]);
    let command = copy_into_jail("/a", true).unwrap();
    assert_eq!(command.program, "bash");
    assert_eq!(
        command.args,
        vec!["/usr/local/share/sandbox/script/env.sh", "/a", "/usr/local/share/sandbox"]
    );
    assert!(!command.captured);
    assert!(copy_into_jail("/a", false).is_none());
    assert_eq!(copy_result("/a", None), Ok(()));
    let exited =
        |success: bool| Some(CopyEvent::Exited { success, stderr: b"denied".to_vec() });
    assert_eq!(copy_result("/a", exited(true)), Ok(()));
    assert_eq!(copy_result("/a", exited(false)), Err("env.sh /a failed: denied".to_string()));
    assert_eq!(
        copy_result("/a", Some(CopyEvent::SpawnFailed("e".to_string()))),
        Err("spawn env.sh for /a: e".to_string())
    );
    assert_eq!(
        copy_result("/a", Some(CopyEvent::WaitFailed("e".to_string()))),
        Err("env.sh /a: e".to_string())
    );
}

#[test]
fn single_flight_admits_exactly_one() {
    let mut latch = RestartLatch::new();
    let mut winners = 0;
    for _ in 0..32 {
        if latch.try_begin_restart() {
            winners += 1;
        }
    }
    assert_eq!(winners, 1, "exactly one caller must win");

    // Releasing it lets a subsequent restart begin.
    latch.end_restart();
    assert!(latch.try_begin_restart(), "it should be reusable after release");
    latch.end_restart();
}

#[test]
fn a_restart_replaces_a_dead_zygote_only() {
    assert_eq!(try_restart_zygote(ZygoteStatus::Running), RestartStep::Done);
    assert_eq!(try_restart_zygote(ZygoteStatus::Dead), RestartStep::Spawn);
    assert_eq!(try_restart_zygote(ZygoteStatus::Absent), RestartStep::Spawn);
    let end = |restarted: bool, install: bool| RestartEnd { restarted, install };
    assert_eq!(finish_restart(false, ZygoteStatus::Dead), end(false, false));
    assert_eq!(finish_restart(true, ZygoteStatus::Running), end(true, false));
    assert_eq!(finish_restart(true, ZygoteStatus::Dead), end(true, true));
}

#[test]
fn startup_depends_on_the_configuration() {
    let mut cfg = config();
    assert_eq!(
        startup(&cfg),
        vec![StartupStep::InstallDependencies, StartupStep::PrepareEnvironment]
    );
    cfg.python_zygote = true;
    cfg.privilege = false;
    assert_eq!(startup(&cfg), vec![StartupStep::StartZygote]);
    let command = zygote_command(&cfg, 5, &env(&[]));
    assert_eq!(
        command.args,
        vec![
            "-B",
            "pool/zygote_worker.py",
            "5",
            "./libpython.so",
            "/usr/local/share/sandbox",
            "json",
        ]
    );
    assert_eq!(config_path(&env(&[])), "runtime/config.toml");
    assert_eq!(config_path(&env(&[("CONFIG_PATH", "/etc/s.toml")])), "/etc/s.toml");
}
