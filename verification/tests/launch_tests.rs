use opcode::channel::Received;
use opcode::events::{Event, SessionState, StreamKind};
use opcode::launch::{
    binary_candidates, build_args, prepare_launch, register_spawned, select_binary,
    ExecuteRequest, LaunchError, SessionType,
};
use opcode::registry::{SessionError, SessionRegistry};

fn strings(v: &[&str]) -> Vec<String> {
    v.iter().map(|s| s.to_string()).collect()
}

#[test]
fn args_for_a_new_session() {
    let args = build_args(
        SessionType::New,
        &"hello".to_string(),
        &"unused".to_string(),
        &"m1".to_string(),
    );
    assert_eq!(
        args,
        strings(&[
            "-p",
            "hello",
            "--model",
            "m1",
            "--output-format",
            "stream-json",
            "--verbose",
            "--dangerously-skip-permissions",
        ])
    );
}

#[test]
fn args_for_a_continued_session() {
    let args = build_args(
        SessionType::Continue,
        &"more".to_string(),
        &"unused".to_string(),
        &"m2".to_string(),
    );
    assert_eq!(
        args,
        strings(&[
            "-c",
            "-p",
            "more",
            "--model",
            "m2",
            "--output-format",
            "stream-json",
            "--verbose",
            "--dangerously-skip-permissions",
        ])
    );
}

#[test]
fn args_for_a_resumed_session() {
    let args = build_args(
        SessionType::Resume,
        &"back".to_string(),
        &"abc-123".to_string(),
        &"m1".to_string(),
    );
    assert_eq!(
        args,
        strings(&[
            "--resume",
            "abc-123",
            "-p",
            "back",
            "--model",
            "m1",
            "--output-format",
            "stream-json",
            "--verbose",
            "--dangerously-skip-permissions",
        ])
    );
}

#[test]
fn binary_resolution_order() {
    // A configured path that exists wins.
    let r = select_binary(
        Some("/etc/tool".to_string()),
        true,
        Some("/path/tool".to_string()),
        strings(&["/a", "/b"]),
        vec![true, true],
    );
    assert_eq!(r, Ok("/etc/tool".to_string()));

    // A configured path that does not exist yields to the PATH hit.
    let r = select_binary(
        Some("/etc/tool".to_string()),
        false,
        Some("/path/tool".to_string()),
        strings(&["/a", "/b"]),
        vec![true, true],
    );
    assert_eq!(r, Ok("/path/tool".to_string()));

    // With neither, the first present well-known location wins.
    let r = select_binary(None, false, None, strings(&["/a", "/b"]), vec![false, true]);
    assert_eq!(r, Ok("/b".to_string()));

    // With nothing present, the binary is not found.
    let r = select_binary(None, false, None, strings(&["/a", "/b"]), vec![false, false]);
    assert_eq!(r, Err(LaunchError::BinaryNotFound));
}

#[test]
fn candidate_locations() {
    let with_home = binary_candidates(&Some("/home/u".to_string()));
    assert_eq!(
        with_home,
        strings(&[
            "/usr/local/bin/ccagent",
            "/opt/homebrew/bin/ccagent",
            "/home/u/.local/bin/ccagent",
        ])
    );
    let without_home = binary_candidates(&None);
    assert_eq!(
        without_home,
        strings(&["/usr/local/bin/ccagent", "/opt/homebrew/bin/ccagent"])
    );
}

#[test]
fn nonexistent_working_directory_fails_before_anything_else() {
    let req = ExecuteRequest {
        project_path: "/nonexistent/surely/not/here".to_string(),
        prompt: "hello".to_string(),
        model: "m1".to_string(),
        session_type: SessionType::New,
        session_id: None,
    };
    let configured = "/bin/sh".to_string();
    let r = prepare_launch(&req, Some(&configured));
    assert!(matches!(r, Err(LaunchError::InvalidWorkingDirectory)));
}

#[test]
fn prepare_launch_builds_the_full_plan() {
    let req = ExecuteRequest {
        project_path: "/tmp".to_string(),
        prompt: "hello".to_string(),
        model: "m1".to_string(),
        session_type: SessionType::New,
        session_id: None,
    };
    let configured = "/bin/sh".to_string();
    let plan = prepare_launch(&req, Some(&configured)).unwrap();
    assert_eq!(plan.program, "/bin/sh");
    assert_eq!(plan.working_directory, "/tmp");
    assert_eq!(plan.session_id.len(), 36);
    assert_eq!(
        plan.args,
        strings(&[
            "-p",
            "hello",
            "--model",
            "m1",
            "--output-format",
            "stream-json",
            "--verbose",
            "--dangerously-skip-permissions",
        ])
    );
}

#[test]
fn prepare_launch_keeps_a_supplied_resume_id() {
    let req = ExecuteRequest {
        project_path: "/tmp".to_string(),
        prompt: "back".to_string(),
        model: "m1".to_string(),
        session_type: SessionType::Resume,
        session_id: Some("earlier-session".to_string()),
    };
    let configured = "/bin/sh".to_string();
    let plan = prepare_launch(&req, Some(&configured)).unwrap();
    assert_eq!(plan.session_id, "earlier-session");
    assert_eq!(plan.args[0], "--resume");
    assert_eq!(plan.args[1], "earlier-session");
}

#[test]
fn spawn_failure_registers_nothing() {
    let mut reg: SessionRegistry<u64> = SessionRegistry::new();
    let r = register_spawned(
        &mut reg,
        "attempted".to_string(),
        Err("permission denied".to_string()),
        16,
        0,
    );
    assert_eq!(
        r,
        Err(LaunchError::SpawnFailed("permission denied".to_string()))
    );
    // The registry is exactly as before: the id resolves to nothing.
    assert_eq!(reg.state_of(&"attempted".to_string()), None);
    assert!(matches!(
        reg.subscribe(&"attempted".to_string()),
        Err(SessionError::SessionNotFound)
    ));
}

#[test]
fn successful_spawn_registers_the_session() {
    let mut reg: SessionRegistry<u64> = SessionRegistry::new();
    let r = register_spawned(&mut reg, "s1".to_string(), Ok(99u64), 16, 1640995200);
    assert_eq!(r, Ok(()));
    assert_eq!(reg.state_of(&"s1".to_string()), Some(SessionState::Running));
    assert!(reg.holds_process(&"s1".to_string()));
    assert_eq!(reg.take_process(&"s1".to_string()), Some(99));
}

#[test]
fn new_session_end_to_end() {
    // Plan a new-session launch in an existing directory.
    let req = ExecuteRequest {
        project_path: "/tmp".to_string(),
        prompt: "hello".to_string(),
        model: "m1".to_string(),
        session_type: SessionType::New,
        session_id: None,
    };
    let configured = "/bin/sh".to_string();
    let plan = prepare_launch(&req, Some(&configured)).unwrap();
    assert_eq!(plan.session_id.len(), 36);

    // Register the (stand-in) spawned process and run the session through
    // one output line and a clean exit.
    let mut reg: SessionRegistry<u64> = SessionRegistry::new();
    let sid = plan.session_id.clone();
    register_spawned(&mut reg, sid.clone(), Ok(1u64), 100, 0).unwrap();
    let mut sub = reg.subscribe(&sid).unwrap();
    assert!(reg.publish_output(&sid, StreamKind::Stdout, "line1".to_string()));
    assert_eq!(reg.take_process(&sid), Some(1));
    assert!(reg.finish(&sid, Event::Completed { exit_success: true, exit_code: Some(0) }));

    // The subscriber sees exactly the output then the completion, and the
    // session no longer answers lookups.
    assert_eq!(
        reg.recv(&sid, &mut sub),
        Received::Event(Event::Output { stream: StreamKind::Stdout, text: "line1".to_string() })
    );
    assert_eq!(
        reg.recv(&sid, &mut sub),
        Received::Event(Event::Completed { exit_success: true, exit_code: Some(0) })
    );
    assert_eq!(reg.recv(&sid, &mut sub), Received::Closed);
    assert!(matches!(reg.subscribe(&sid), Err(SessionError::SessionNotFound)));
}

#[test]
fn plan_for_judges_the_directory_first() {
    let req = ExecuteRequest {
        project_path: "/gone".to_string(),
        prompt: "hello".to_string(),
        model: "m1".to_string(),
        session_type: SessionType::New,
        session_id: None,
    };
    // Even with a resolved binary, a missing directory decides.
    let r = opcode::launch::plan_for(false, Ok("/bin/tool".to_string()), &req, "f".to_string());
    assert!(matches!(r, Err(LaunchError::InvalidWorkingDirectory)));
    // And only a missing directory ever yields that error.
    let r = opcode::launch::plan_for(true, Err(LaunchError::BinaryNotFound), &req, "f".to_string());
    assert!(matches!(r, Err(LaunchError::BinaryNotFound)));
}

#[test]
fn plan_for_builds_the_exact_plan() {
    let req = ExecuteRequest {
        project_path: "/work".to_string(),
        prompt: "hello".to_string(),
        model: "m1".to_string(),
        session_type: SessionType::New,
        session_id: None,
    };
    let plan =
        opcode::launch::plan_for(true, Ok("/bin/tool".to_string()), &req, "fresh-id".to_string())
            .unwrap();
    assert_eq!(plan.program, "/bin/tool");
    assert_eq!(plan.working_directory, "/work");
    assert_eq!(plan.session_id, "fresh-id");
    assert_eq!(
        plan.args,
        strings(&[
            "-p",
            "hello",
            "--model",
            "m1",
            "--output-format",
            "stream-json",
            "--verbose",
            "--dangerously-skip-permissions",
        ])
    );
}

#[test]
fn plan_for_prefers_a_supplied_resume_id() {
    let req = ExecuteRequest {
        project_path: "/work".to_string(),
        prompt: "back".to_string(),
        model: "m1".to_string(),
        session_type: SessionType::Resume,
        session_id: Some("kept".to_string()),
    };
    let plan =
        opcode::launch::plan_for(true, Ok("/bin/tool".to_string()), &req, "unused".to_string())
            .unwrap();
    assert_eq!(plan.session_id, "kept");
    // A resume without a prior identifier falls back to the fresh one.
    let req = ExecuteRequest { session_id: None, ..req };
    let plan =
        opcode::launch::plan_for(true, Ok("/bin/tool".to_string()), &req, "fallback".to_string())
            .unwrap();
    assert_eq!(plan.session_id, "fallback");
}
