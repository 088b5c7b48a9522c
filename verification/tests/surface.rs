use terminal_sessions::error::{PathStep, SessionError, SpawnStep};
use terminal_sessions::ident::new_session_id;
use terminal_sessions::launch::{PtyDims, TerminalCreateRequest};
use terminal_sessions::pump::{Pump, PumpAction, ReadOutcome};
use terminal_sessions::registry::Registry;
use terminal_sessions::surface::{
    advance_spawn, first_spawn_step, begin_create, complete_create, get_terminal_session, terminal_kill, terminal_list,
    terminal_resize, terminal_write, SpawnOutcome, TerminalCreateResponse, TerminalKillRequest,
    TerminalResizeRequest, TerminalWriteRequest,
};

fn empty_request() -> TerminalCreateRequest {
    TerminalCreateRequest { cwd: None, cols: None, rows: None, shell: None, args: None }
}

fn spawned(handles: u32, pid: Option<u32>) -> SpawnOutcome<u32> {
    SpawnOutcome::Spawned { handles, pid }
}

fn create(registry: &mut Registry<u32>, handles: u32) -> String {
    let pending = begin_create(empty_request(), None, Ok(String::from("/"))).unwrap();
    let response =
        complete_create(registry, pending.session_id.clone(), spawned(handles, Some(handles)))
            .unwrap();
    assert_eq!(response.session_id, pending.session_id);
    response.session_id
}

fn write(id: &str, data: &str) -> TerminalWriteRequest {
    TerminalWriteRequest { session_id: String::from(id), data: String::from(data) }
}

fn resize(id: &str, cols: u16, rows: u16) -> TerminalResizeRequest {
    TerminalResizeRequest { session_id: String::from(id), cols, rows }
}

fn kill(id: &str) -> TerminalKillRequest {
    TerminalKillRequest { session_id: String::from(id), signal: None }
}

fn not_found(id: &str) -> SessionError {
    SessionError::NotFound { session_id: String::from(id) }
}

#[test]
fn begin_create_plans_and_names_the_session() {
    let mut request = empty_request();
    request.cwd = Some(String::from("work"));
    request.cols = Some(0);
    let pending = begin_create(request, Some(String::from("/bin/dash")), Ok(String::from("/home/u")))
        .unwrap();
    assert_eq!(pending.session_id.len(), 36);
    assert_eq!(pending.plan.shell, "/bin/dash");
    assert_eq!(pending.plan.args, Vec::<String>::new());
    assert_eq!(pending.plan.cwd, "/home/u/work");
    assert_eq!(pending.plan.size, PtyDims { cols: 1, rows: 40 });
}

#[test]
fn begin_create_fails_without_a_current_directory() {
    let error = begin_create(empty_request(), None, Err(String::from("gone"))).unwrap_err();
    assert_eq!(
        error,
        SessionError::PathResolutionFailure {
            step: PathStep::CurrentDir,
            detail: String::from("gone"),
        }
    );
}

#[test]
fn a_created_session_is_listed_at_once() {
    let mut registry: Registry<u32> = Registry::new();
    let response =
        complete_create(&mut registry, String::from("id-1"), spawned(7, Some(4242))).unwrap();
    assert_eq!(response, TerminalCreateResponse { session_id: String::from("id-1"), pid: 4242 });
    assert_eq!(terminal_list(&registry), vec![String::from("id-1")]);
    assert_eq!(get_terminal_session(&registry, "id-1"), Ok(&7));
}

#[test]
fn an_unknown_process_identifier_is_reported_as_zero() {
    let mut registry: Registry<u32> = Registry::new();
    let response = complete_create(&mut registry, String::from("id-1"), spawned(7, None)).unwrap();
    assert_eq!(response.pid, 0);
}

#[test]
fn a_failed_spawn_registers_nothing() {
    let mut registry: Registry<u32> = Registry::new();
    complete_create(&mut registry, String::from("kept"), spawned(1, None)).unwrap();
    let steps = [
        (SpawnStep::OpenPty, "failed to open PTY: boom"),
        (SpawnStep::CloneReader, "failed to clone PTY reader: boom"),
        (SpawnStep::TakeWriter, "failed to take PTY writer: boom"),
        (SpawnStep::Spawn, "failed to spawn terminal process: boom"),
    ];
    for (step, message) in steps {
        let outcome = SpawnOutcome::Failed { step, detail: String::from("boom") };
        let error = complete_create(&mut registry, String::from("new"), outcome).unwrap_err();
        assert_eq!(error, SessionError::SpawnFailure { step, detail: String::from("boom") });
        assert_eq!(error.message(), message);
        assert_eq!(terminal_list(&registry), vec![String::from("kept")]);
    }
}

#[test]
fn twenty_sessions_get_twenty_identifiers() {
    let mut registry: Registry<u32> = Registry::new();
    let mut issued = Vec::new();
    for handles in 0..20 {
        issued.push(create(&mut registry, handles));
    }
    let mut distinct = issued.clone();
    distinct.sort();
    distinct.dedup();
    assert_eq!(distinct.len(), 20);
    let mut listed = terminal_list(&registry);
    listed.sort();
    assert_eq!(listed, distinct);
    for (handles, id) in issued.iter().enumerate() {
        assert_eq!(get_terminal_session(&registry, id), Ok(&(handles as u32)));
    }
}

#[test]
fn commands_against_an_unknown_session_fail_with_not_found() {
    let mut registry: Registry<u32> = Registry::new();
    let known = create(&mut registry, 1);
    let never_issued = new_session_id();
    for id in [never_issued.as_str(), "", "no-such-session", " ", &known.to_uppercase()] {
        assert_eq!(get_terminal_session(&registry, id), Err(not_found(id)));
        assert_eq!(terminal_write(&registry, &write(id, "x")), Err(not_found(id)));
        assert_eq!(terminal_resize(&registry, &resize(id, 80, 24)), Err(not_found(id)));
        assert_eq!(terminal_kill(&mut registry, &kill(id)), Err(not_found(id)));
        assert_eq!(terminal_list(&registry), vec![known.clone()]);
    }
    assert_eq!(
        not_found("no-such-session").message(),
        "Terminal session \"no-such-session\" was not found."
    );
}

#[test]
fn a_write_is_directed_at_the_session_with_the_bytes_of_the_input() {
    let mut registry: Registry<u32> = Registry::new();
    let id = create(&mut registry, 5);
    let request = write(&id, "ls -la\n\u{e9}");
    let (handles, bytes) = terminal_write(&registry, &request).unwrap();
    assert_eq!(*handles, 5);
    assert_eq!(bytes, "ls -la\n\u{e9}".as_bytes());
    let empty = write(&id, "");
    assert_eq!(terminal_write(&registry, &empty), Ok((&5, &b""[..])));
}

#[test]
fn a_resize_to_zero_is_a_resize_to_one() {
    let mut registry: Registry<u32> = Registry::new();
    let id = create(&mut registry, 5);
    let zero = terminal_resize(&registry, &resize(&id, 0, 0));
    let one = terminal_resize(&registry, &resize(&id, 1, 1));
    assert_eq!(zero, Ok((&5, PtyDims { cols: 1, rows: 1 })));
    assert_eq!(zero, one);
}

#[test]
fn a_resize_keeps_a_size_that_is_not_zero() {
    let mut registry: Registry<u32> = Registry::new();
    let id = create(&mut registry, 5);
    assert_eq!(
        terminal_resize(&registry, &resize(&id, 132, 0)),
        Ok((&5, PtyDims { cols: 132, rows: 1 }))
    );
    assert_eq!(
        terminal_resize(&registry, &resize(&id, u16::MAX, u16::MAX)),
        Ok((&5, PtyDims { cols: u16::MAX, rows: u16::MAX }))
    );
}

#[test]
fn a_killed_session_is_gone() {
    let mut registry: Registry<u32> = Registry::new();
    let first = create(&mut registry, 1);
    let second = create(&mut registry, 2);
    assert_eq!(terminal_kill(&mut registry, &kill(&first)), Ok(1));
    assert_eq!(terminal_list(&registry), vec![second.clone()]);
    assert_eq!(terminal_write(&registry, &write(&first, "x")), Err(not_found(&first)));
    assert_eq!(terminal_resize(&registry, &resize(&first, 1, 1)), Err(not_found(&first)));
    assert_eq!(terminal_kill(&mut registry, &kill(&first)), Err(not_found(&first)));
    assert_eq!(get_terminal_session(&registry, &second), Ok(&2));
}

#[test]
fn the_signal_of_a_kill_request_changes_nothing() {
    let mut with_signal: Registry<u32> = Registry::new();
    let mut without: Registry<u32> = Registry::new();
    complete_create(&mut with_signal, String::from("s"), spawned(1, None)).unwrap();
    complete_create(&mut without, String::from("s"), spawned(1, None)).unwrap();
    let request = TerminalKillRequest {
        session_id: String::from("s"),
        signal: Some(String::from("SIGKILL")),
    };
    assert_eq!(terminal_kill(&mut with_signal, &request), terminal_kill(&mut without, &kill("s")));
    assert_eq!(terminal_list(&with_signal), terminal_list(&without));
}

#[test]
fn a_session_that_ends_on_its_own_leaves_the_registry() {
    let mut registry: Registry<u32> = Registry::new();
    let id = create(&mut registry, 1);
    let mut pump = Pump::new(id.clone());
    match pump.step(ReadOutcome::Data(Vec::new())) {
        PumpAction::Exit(event) => {
            assert_eq!(registry.remove(&event.session_id), Some(1));
            assert_eq!(event.session_id, id);
            assert_eq!(event.exit_code, 0);
            assert_eq!(event.signal, None);
        }
        other => panic!("expected an exit, got {other:?}"),
    }
    assert_eq!(terminal_list(&registry), Vec::<String>::new());
    assert_eq!(terminal_write(&registry, &write(&id, "x")), Err(not_found(&id)));
}

#[test]
fn the_removal_by_the_pump_after_a_kill_changes_nothing() {
    let mut registry: Registry<u32> = Registry::new();
    let killed = create(&mut registry, 1);
    let other = create(&mut registry, 2);
    assert_eq!(terminal_kill(&mut registry, &kill(&killed)), Ok(1));
    let mut pump = Pump::new(killed.clone());
    let mut exits = 0;
    for read in [ReadOutcome::Data(Vec::new()), ReadOutcome::Data(Vec::new()), ReadOutcome::Failed] {
        if let PumpAction::Exit(event) = pump.step(read) {
            exits += 1;
            assert_eq!(registry.remove(&event.session_id), None);
        }
    }
    assert_eq!(exits, 1);
    assert_eq!(terminal_list(&registry), vec![other]);
}

#[test]
fn the_streams_are_taken_before_the_child_is_spawned() {
    let mut steps = vec![first_spawn_step()];
    while let Some(next) = advance_spawn(steps[steps.len() - 1], Ok(())).unwrap() {
        steps.push(next);
        assert!(steps.len() <= 4);
    }
    assert_eq!(
        steps,
        vec![SpawnStep::OpenPty, SpawnStep::CloneReader, SpawnStep::TakeWriter, SpawnStep::Spawn]
    );
}

#[test]
fn a_failed_step_ends_the_creation_with_its_error() {
    for step in [SpawnStep::OpenPty, SpawnStep::CloneReader, SpawnStep::TakeWriter, SpawnStep::Spawn] {
        assert_eq!(
            advance_spawn(step, Err(String::from("boom"))),
            Err(SessionError::SpawnFailure { step, detail: String::from("boom") })
        );
    }
}
