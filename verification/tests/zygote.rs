use sandbox_server::config::ProxyConfig;
use sandbox_server::environ::Environment;
use sandbox_server::pending::Action;
use sandbox_server::pool;
use sandbox_server::protocol::{
    encode_frame, next_frame, Frame, NextFrame, HEADER_SIZE, MSG_DONE, MSG_KILL, MSG_RUN,
    MSG_STDERR, MSG_STDOUT,
};
use sandbox_server::runners::ExecutionResult;
use sandbox_server::services::zygote::{
    max_output_bytes, run_payload, worker_command, SandboxLimits, ZygoteManager,
    DEFAULT_MAX_OUTPUT_BYTES,
};
use sandbox_server::session::{ReadOutcome, RunEvent, Start};

fn env(vars: &[(&str, &str)]) -> Environment {
    Environment { vars: vars.iter().map(|(n, v)| (n.to_string(), v.to_string())).collect() }
}

fn limits() -> SandboxLimits {
    SandboxLimits { uid: 1, gid: 2, net: true, max_as: 3, timeout_secs: 4 }
}

fn start(manager: &mut ZygoteManager) -> (u32, Vec<u8>) {
    match manager.run("Y29kZQ==", "a2V5", &limits()) {
        Start::Send { req_id, frame } => (req_id, frame),
        Start::Refused(_) => panic!("refused"),
    }
}

fn completion(action: &Action) -> (u32, &str, &str, i32) {
    match action {
        Action::Complete { req_id, result } => {
            (*req_id, &result.stdout, &result.stderr, result.exit_code)
        }
        Action::Send { .. } => panic!("no completion"),
    }
}

fn sent(action: &Action) -> &[u8] {
    match action {
        Action::Send { frame } => frame,
        Action::Complete { .. } => panic!("nothing to be sent"),
    }
}

#[test]
fn frames_have_a_header_and_a_payload() {
    assert_eq!(HEADER_SIZE, 9);
    assert_eq!(
        encode_frame(MSG_RUN, 0x01020304, b"hi"),
        vec![0, 0, 0, 2, 1, 1, 2, 3, 4, b'h', b'i']
    );
    assert_eq!(encode_frame(MSG_KILL, 7, &[]), vec![0, 0, 0, 0, 2, 0, 0, 0, 7]);
}

#[test]
fn encoded_frames_decode() {
    let mut buf = encode_frame(MSG_STDOUT, 9, b"abc");
    buf.extend_from_slice(&encode_frame(MSG_DONE, 9, &[0, 0, 0, 5]));
    buf.push(0);
    match next_frame(&mut buf, None) {
        NextFrame::Complete(Frame { kind, req_id, payload }) => {
            assert_eq!((kind, req_id), (MSG_STDOUT, 9));
            assert_eq!(payload, b"abc");
        }
        _ => panic!("no frame"),
    }
    match next_frame(&mut buf, Some(4)) {
        NextFrame::Complete(frame) => assert_eq!(frame.payload, vec![0, 0, 0, 5]),
        _ => panic!("no frame"),
    }
    assert!(matches!(next_frame(&mut buf, None), NextFrame::More));
    assert_eq!(buf, vec![0]);
}

#[test]
fn frames_above_the_limit_are_told_apart() {
    let mut buf = encode_frame(MSG_STDOUT, 1, b"abcd");
    assert!(matches!(next_frame(&mut buf, Some(3)), NextFrame::Oversized));
    assert_eq!(buf.len(), 13);
    assert!(matches!(next_frame(&mut buf, Some(4)), NextFrame::Complete(_)));
    // The length alone decides, before the payload is there.
    let mut header = vec![0xff, 0xff, 0xff, 0xff, 3, 0, 0, 0, 1];
    assert!(matches!(next_frame(&mut header, Some(100)), NextFrame::Oversized));
    assert!(matches!(next_frame(&mut header, None), NextFrame::More));
}

/// Per-request output cap: a child exceeding it is killed.
#[test]
fn per_request_output_cap_kills_child() {
    let mut manager = ZygoteManager::new(&env(&[("ZYGOTE_MAX_OUTPUT_BYTES", "100")]));
    manager.session.next_id = 7;
    assert_eq!(start(&mut manager).0, 7);

    // The worker writes 120 bytes of stdout for req 7 (> 100 cap).
    let chunk = vec![b'x'; 60];
    let frame = encode_frame(MSG_STDOUT, 7, &chunk);
    let first = manager.read_loop(Some(&frame));
    assert!(first.actions.is_empty() && !first.closed);
    let second = manager.read_loop(Some(&frame));
    assert!(!second.closed);
    let actions = second.actions;
    assert_eq!(actions.len(), 2);

    // The request completes with the limit error.
    let (req_id, _out, err, code) = completion(&actions[0]);
    assert_eq!(req_id, 7);
    assert_eq!(code, -1);
    assert!(err.contains("output limit exceeded"), "unexpected err: {err}");
    assert_eq!(err, "output limit exceeded (> 100 bytes); process killed");

    // The manager sent a MSG_KILL for req 7 back to the worker.
    let hdr = sent(&actions[1]);
    assert_eq!(hdr[4], MSG_KILL, "expected MSG_KILL frame");
    assert_eq!(u32::from_be_bytes([hdr[5], hdr[6], hdr[7], hdr[8]]), 7);

    // The over-limit request's buffer was freed.
    assert!(!manager.session.pending.contains(7));
}

/// Invalid or zero falls back to the default.
#[test]
fn max_output_env_parsing() {
    assert_eq!(DEFAULT_MAX_OUTPUT_BYTES, 10 * 1024 * 1024);
    assert_eq!(max_output_bytes(&env(&[])), DEFAULT_MAX_OUTPUT_BYTES);
    let parsed = |v: &str| max_output_bytes(&env(&[("ZYGOTE_MAX_OUTPUT_BYTES", v)]));
    assert_eq!(parsed("1000"), 1000);
    assert_eq!(parsed("0"), DEFAULT_MAX_OUTPUT_BYTES);
    assert_eq!(parsed("lots"), DEFAULT_MAX_OUTPUT_BYTES);
    assert_eq!(parsed(" 1000"), DEFAULT_MAX_OUTPUT_BYTES);
}

#[test]
fn requests_are_sent_as_json() {
    assert_eq!(
        run_payload("Y29kZQ==", "a2V5", &limits()),
        "{\"code\":\"Y29kZQ==\",\"gid\":2,\"key\":\"a2V5\",\"max_as\":3,\"net\":true,\"uid\":1}"
    );
    let mut manager = ZygoteManager::new(&env(&[]));
    let (req_id, frame) = start(&mut manager);
    assert_eq!(req_id, 1);
    assert_eq!(
        frame,
        encode_frame(MSG_RUN, 1, run_payload("Y29kZQ==", "a2V5", &limits()).as_bytes())
    );
    // A text is escaped.
    let payload = run_payload("a\"b", "", &limits());
    assert!(payload.contains("\"code\":\"a\\\"b\""));
}

#[test]
fn answers_reach_their_callers() {
    let mut manager = ZygoteManager::new(&env(&[]));
    let (first, _) = start(&mut manager);
    let (second, _) = start(&mut manager);
    assert_eq!((first, second), (1, 2));
    let mut stream = encode_frame(MSG_STDOUT, 1, b"he");
    stream.extend_from_slice(&encode_frame(MSG_STDERR, 2, b"oops"));
    stream.extend_from_slice(&encode_frame(MSG_STDOUT, 1, b"llo"));
    stream.extend_from_slice(&encode_frame(MSG_DONE, 2, &[0xff, 0xff, 0xff, 0xe1]));
    stream.extend_from_slice(&encode_frame(MSG_DONE, 1, &[0, 0, 0, 0]));
    // However the stream is cut into reads.
    for cut in [1, 9, 20, stream.len() - 1] {
        let mut manager = ZygoteManager::new(&env(&[]));
        start(&mut manager);
        start(&mut manager);
        let mut actions = manager.read_loop(Some(&stream[..cut])).actions;
        let more: ReadOutcome = manager.read_loop(Some(&stream[cut..]));
        assert!(!more.closed);
        actions.extend(more.actions);
        assert_eq!(actions.len(), 2);
        assert_eq!(completion(&actions[0]), (2, "", "oops", -31));
        assert_eq!(completion(&actions[1]), (1, "hello", "", 0));
    }
}

#[test]
fn callers_are_answered_once() {
    let mut manager = ZygoteManager::new(&env(&[]));
    start(&mut manager);
    let done = encode_frame(MSG_DONE, 1, &[0, 0]);
    let outcome = manager.read_loop(Some(&done));
    // Too short a payload is reported as -1.
    assert_eq!(completion(&outcome.actions[0]), (1, "", "", -1));
    assert!(manager.read_loop(Some(&done)).actions.is_empty());
    // Nor are requests that are not pending.
    assert!(manager.read_loop(Some(&encode_frame(MSG_DONE, 5, &[]))).actions.is_empty());
    assert!(manager.stop().is_empty());
}

#[test]
fn a_lost_connection_fails_all_callers() {
    for lost in [None, Some(&b""[..])] {
        let mut manager = ZygoteManager::new(&env(&[]));
        start(&mut manager);
        start(&mut manager);
        let outcome = manager.read_loop(lost);
        assert!(outcome.closed);
        let mut told: Vec<u32> = Vec::new();
        for action in &outcome.actions {
            let (req_id, out, err, code) = completion(action);
            assert_eq!((out, err, code), ("", "zygote connection lost", -1));
            told.push(req_id);
        }
        told.sort();
        assert_eq!(told, vec![1, 2]);
        assert!(!manager.is_running());
        match manager.run("", "", &limits()) {
            Start::Refused(result) => {
                assert_eq!(result.stdout, "");
                assert_eq!(result.stderr, "zygote worker not running");
                assert_eq!(result.exit_code, -1);
            }
            Start::Send { .. } => panic!("sent"),
        }
    }
}

#[test]
fn an_oversized_frame_ends_the_connection() {
    let mut manager = ZygoteManager::new(&env(&[("ZYGOTE_MAX_OUTPUT_BYTES", "4")]));
    start(&mut manager);
    start(&mut manager);
    let mut stream = encode_frame(MSG_DONE, 1, &[0, 0, 0, 1]);
    stream.extend_from_slice(&encode_frame(MSG_STDOUT, 2, b"12345"));
    let outcome = manager.read_loop(Some(&stream));
    assert!(outcome.closed);
    assert_eq!(outcome.actions.len(), 2);
    assert_eq!(completion(&outcome.actions[0]), (1, "", "", 1));
    assert_eq!(completion(&outcome.actions[1]), (2, "", "zygote connection lost", -1));
}

#[test]
fn stopping_fails_all_callers() {
    let mut manager = ZygoteManager::new(&env(&[]));
    start(&mut manager);
    assert!(manager.is_running());
    let actions = manager.stop();
    assert_eq!(actions.len(), 1);
    assert_eq!(completion(&actions[0]), (1, "", "zygote stopped", -1));
    assert!(!manager.is_running());
}

#[test]
fn waiting_ends_in_one_of_three_ways() {
    let mut manager = ZygoteManager::new(&env(&[]));
    let (req_id, _) = start(&mut manager);
    let end = manager.finish_run(req_id, RunEvent::WriteFailed);
    assert_eq!(end.result.stderr, "zygote write failed");
    assert_eq!(end.result.exit_code, -1);
    assert!(end.kill.is_none());

    let (req_id, _) = start(&mut manager);
    let end = manager.finish_run(req_id, RunEvent::TimedOut);
    assert_eq!(end.result.stderr, "Execution timeout");
    assert_eq!(end.kill, Some(encode_frame(MSG_KILL, req_id, &[])));
    // It is no longer pending.
    assert!(manager.read_loop(Some(&encode_frame(MSG_DONE, req_id, &[]))).actions.is_empty());

    let (req_id, _) = start(&mut manager);
    let result = ExecutionResult {
        stdout: "o".to_string(),
        stderr: "e".to_string(),
        exit_code: 9,
    };
    let end = manager.finish_run(req_id, RunEvent::Completed(result));
    assert_eq!((end.result.stdout.as_str(), end.result.exit_code), ("o", 9));
    assert!(end.kill.is_none());
}

#[test]
fn ids_wrap_from_the_largest_to_one() {
    let mut manager = ZygoteManager::new(&env(&[]));
    manager.session.next_id = u32::MAX;
    assert_eq!(start(&mut manager).0, u32::MAX);
    assert_eq!(start(&mut manager).0, 1);
    assert_eq!(start(&mut manager).0, 2);
}

#[test]
fn the_worker_gets_its_socket_and_modules() {
    let modules = vec!["json".to_string(), "re".to_string()];
    let proxy = ProxyConfig {
        socks5: "s".to_string(),
        http: String::new(),
        https: String::new(),
    };
    let vars = env(&[("PATH", "/bin")]);
    let command = worker_command("/py", 12, "./libpython.so", "/lib", &modules, &proxy, &vars);
    assert_eq!(command.program, "/py");
    assert_eq!(
        command.args,
        vec!["-B", "pool/zygote_worker.py", "12", "./libpython.so", "/lib", "json,re"]
    );
    let pair = |n: &str, v: &str| (n.to_string(), v.to_string());
    assert_eq!(
        command.env,
        vec![pair("PATH", "/bin"), pair("HTTPS_PROXY", "s"), pair("HTTP_PROXY", "s")]
    );
    assert!(command.clear_env);
    assert!(command.kill_on_drop);
    assert_eq!(command.timeout_secs, None);
    let plain = pool::zygote::pool_command("/py", -1, "so", "/lib", &Vec::new(), &vars);
    assert_eq!(plain.args[2], "-1");
    assert_eq!(plain.args[5], "");
    assert_eq!(plain.env, vec![pair("PATH", "/bin")]);
}

#[test]
fn the_unlimited_pool_takes_any_output() {
    let mut manager = pool::zygote::ZygoteManager::new();
    assert!(manager.is_running());
    let frame = match manager.run("Yw==", "aw==", 1, 2, false) {
        Start::Send { frame, .. } => frame,
        Start::Refused(_) => panic!("refused"),
    };
    assert_eq!(
        &frame[HEADER_SIZE..],
        b"{\"code\":\"Yw==\",\"gid\":2,\"key\":\"aw==\",\"net\":false,\"uid\":1}"
    );
    let big = vec![b'x'; DEFAULT_MAX_OUTPUT_BYTES + 1];
    let outcome = manager.read_loop(Some(&encode_frame(MSG_STDOUT, 1, &big)));
    assert!(!outcome.closed);
    assert!(outcome.actions.is_empty());
    let outcome = manager.read_loop(Some(&encode_frame(MSG_DONE, 1, &[0, 0, 0, 0])));
    assert_eq!(completion(&outcome.actions[0]).1.len(), DEFAULT_MAX_OUTPUT_BYTES + 1);
    assert_eq!(manager.finish_run(1, RunEvent::TimedOut).result.exit_code, -1);
    assert!(manager.stop().is_empty());
}

#[test]
fn what_is_kept_of_a_stream_is_less_than_one_frame() {
    let mut manager = ZygoteManager::new(&env(&[("ZYGOTE_MAX_OUTPUT_BYTES", "4")]));
    start(&mut manager);
    let frame = encode_frame(MSG_STDERR, 9, b"1234");
    for _ in 0..100 {
        let outcome = manager.read_loop(Some(&frame[..12]));
        assert!(!outcome.closed);
        assert!(manager.session.buf.len() < HEADER_SIZE + 4);
        assert!(!manager.read_loop(Some(&frame[12..])).closed);
        assert!(manager.session.buf.is_empty());
    }
}

#[test]
fn nothing_counts_after_an_oversized_frame() {
    let vars = env(&[("ZYGOTE_MAX_OUTPUT_BYTES", "4")]);
    let mut stream = encode_frame(MSG_DONE, 1, &[0, 0, 0, 1]);
    stream.extend_from_slice(&encode_frame(MSG_STDOUT, 2, b"12345"));
    let cut = 13 + HEADER_SIZE;
    stream.extend_from_slice(&encode_frame(MSG_DONE, 2, &[0, 0, 0, 0]));
    for end in [cut, stream.len()] {
        let mut manager = ZygoteManager::new(&vars);
        start(&mut manager);
        start(&mut manager);
        let outcome = manager.read_loop(Some(&stream[..end]));
        assert!(outcome.closed);
        assert_eq!(completion(&outcome.actions[0]), (1, "", "", 1));
        assert_eq!(completion(&outcome.actions[1]), (2, "", "zygote connection lost", -1));
        assert_eq!(outcome.actions.len(), 2);
    }
}
