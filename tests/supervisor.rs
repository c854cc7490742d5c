use cocos::api::errors::ApiError;
use cocos::api::ipc_responses::ApiStatus;
use cocos::api::supervisor::{ApiController, ProcessState, SupervisorAction, SupervisorEvent};
use cocos::models::api::ApiTickInputMessage;
use cocos::models::position::Position;

fn started() -> ApiController {
    let mut c = ApiController::new("ipc:///tmp/cocos-api");
    assert_eq!(c.restart_api(), SupervisorAction::Spawn);
    assert_eq!(c.process_state(), ProcessState::Starting);
    assert_eq!(c.on_event(SupervisorEvent::Spawned { ok: true }), SupervisorAction::WriteScript);
    assert_eq!(
        c.on_event(SupervisorEvent::ScriptWritten { ok: true }),
        SupervisorAction::BindEndpoint
    );
    assert_eq!(
        c.on_event(SupervisorEvent::EndpointBound { result: Ok(()) }),
        SupervisorAction::Finished(Ok(()))
    );
    assert_eq!(c.process_state(), ProcessState::Running);
    assert!(c.is_bound());
    c
}

#[test]
fn kill_twice_without_process_succeeds() {
    let mut c = ApiController::new("ipc:///tmp/cocos-api");
    assert_eq!(c.kill(), SupervisorAction::Finished(Ok(())));
    assert_eq!(c.kill(), SupervisorAction::Finished(Ok(())));
    assert_eq!(c.process_state(), ProcessState::Stopped);
}

#[test]
fn restart_stops_running_process_first() {
    let mut c = started();
    assert_eq!(c.restart_api(), SupervisorAction::CloseEndpoint);
    assert!(!c.is_bound());
    assert_eq!(c.process_state(), ProcessState::Stopping);
    assert_eq!(c.on_event(SupervisorEvent::EndpointClosed), SupervisorAction::SendTerminate);
    assert_eq!(
        c.on_event(SupervisorEvent::TerminateSent { delivered: true }),
        SupervisorAction::WaitForExit { timeout_ms: 2000 }
    );
    assert_eq!(c.on_event(SupervisorEvent::WaitEnded { exited: false }), SupervisorAction::ForceKill);
    assert_eq!(c.on_event(SupervisorEvent::ForceKilled { ok: true }), SupervisorAction::Spawn);
    assert_eq!(c.process_state(), ProcessState::Starting);
    assert_eq!(c.on_event(SupervisorEvent::Spawned { ok: true }), SupervisorAction::WriteScript);
    assert_eq!(
        c.on_event(SupervisorEvent::ScriptWritten { ok: true }),
        SupervisorAction::BindEndpoint
    );
    assert_eq!(
        c.on_event(SupervisorEvent::EndpointBound { result: Ok(()) }),
        SupervisorAction::Finished(Ok(()))
    );
    assert_eq!(c.process_state(), ProcessState::Running);
}

#[test]
fn graceful_exit_needs_no_forced_kill() {
    let mut c = started();
    assert_eq!(c.kill(), SupervisorAction::CloseEndpoint);
    assert_eq!(c.on_event(SupervisorEvent::EndpointClosed), SupervisorAction::SendTerminate);
    assert_eq!(
        c.on_event(SupervisorEvent::TerminateSent { delivered: true }),
        SupervisorAction::WaitForExit { timeout_ms: 2000 }
    );
    assert_eq!(
        c.on_event(SupervisorEvent::WaitEnded { exited: true }),
        SupervisorAction::Finished(Ok(()))
    );
    assert_eq!(c.process_state(), ProcessState::Stopped);
    assert_eq!(c.kill(), SupervisorAction::Finished(Ok(())));
}

#[test]
fn undelivered_signal_fails_the_kill() {
    let mut c = started();
    assert_eq!(c.kill(), SupervisorAction::CloseEndpoint);
    assert_eq!(c.on_event(SupervisorEvent::EndpointClosed), SupervisorAction::SendTerminate);
    assert_eq!(
        c.on_event(SupervisorEvent::TerminateSent { delivered: false }),
        SupervisorAction::Finished(Err(ApiError::ProcessError))
    );
    assert_eq!(c.process_state(), ProcessState::Running);
}

#[test]
fn spawn_and_write_failures_are_reported() {
    let mut c = ApiController::new("ipc:///tmp/cocos-api");
    assert_eq!(c.restart_api(), SupervisorAction::Spawn);
    assert_eq!(
        c.on_event(SupervisorEvent::Spawned { ok: false }),
        SupervisorAction::Finished(Err(ApiError::ProcessSpawnError))
    );
    assert_eq!(c.process_state(), ProcessState::Stopped);
    assert_eq!(c.restart_api(), SupervisorAction::Spawn);
    assert_eq!(c.on_event(SupervisorEvent::Spawned { ok: true }), SupervisorAction::WriteScript);
    assert_eq!(
        c.on_event(SupervisorEvent::ScriptWritten { ok: false }),
        SupervisorAction::Finished(Err(ApiError::IO))
    );
    assert_eq!(c.process_state(), ProcessState::Running);
    assert!(!c.is_bound());
}

#[test]
fn bind_failure_is_reported() {
    let mut c = ApiController::new("ipc:///tmp/cocos-api");
    c.restart_api();
    c.on_event(SupervisorEvent::Spawned { ok: true });
    c.on_event(SupervisorEvent::ScriptWritten { ok: true });
    assert_eq!(
        c.on_event(SupervisorEvent::EndpointBound { result: Err(98) }),
        SupervisorAction::Finished(Err(ApiError::ZMQError(98)))
    );
    assert!(!c.is_bound());
}

#[test]
fn script_is_staged_only_without_process() {
    let mut c = ApiController::new("ipc:///tmp/cocos-api");
    assert_eq!(c.set_script(b"print(1)".to_vec()), Ok(()));
    assert_eq!(c.script_bytes(), &b"print(1)".to_vec());
    let mut c = {
        let mut d = started();
        d.kill();
        d.on_event(SupervisorEvent::EndpointClosed);
        d.on_event(SupervisorEvent::TerminateSent { delivered: true });
        d.on_event(SupervisorEvent::WaitEnded { exited: true });
        d
    };
    assert_eq!(c.set_script(b"x".to_vec()), Ok(()));
    let mut r = started();
    assert_eq!(r.set_script(b"y".to_vec()), Err(ApiError::AlreadyRunning));
    assert_eq!(r.script_bytes(), &Vec::<u8>::new());
    assert_eq!(c.kill(), SupervisorAction::Finished(Ok(())));
}

#[test]
fn busy_supervisor_refuses_new_operation() {
    let mut c = started();
    assert_eq!(c.kill(), SupervisorAction::CloseEndpoint);
    assert_eq!(c.restart_api(), SupervisorAction::Finished(Err(ApiError::General)));
    assert_eq!(c.on_event(SupervisorEvent::Spawned { ok: true }), SupervisorAction::CloseEndpoint);
    let mut idle = ApiController::new("ipc:///tmp/cocos-api");
    assert_eq!(
        idle.on_event(SupervisorEvent::EndpointClosed),
        SupervisorAction::Finished(Err(ApiError::General))
    );
}

#[test]
fn spawn_command_names_the_endpoint() {
    let c = ApiController::new("ipc:///tmp/cocos-api");
    assert_eq!(c.spawn_command(), vec!["python2", "-m", "cocos_py2", "ipc:///tmp/cocos-api"]);
    assert_eq!(c.comm_file(), "ipc:///tmp/cocos-api");
}

#[test]
fn run_tick_goes_through_the_endpoint() {
    let input = ApiTickInputMessage { bot_pos: Position::zero() };
    let idle = ApiController::new("ipc:///tmp/cocos-api");
    assert_eq!(idle.run_tick(b"{}", &input).unwrap_err(), ApiError::SockNotReady);
    let c = started();
    let x = c.run_tick(&[0xc3, 0x28], &input).unwrap();
    assert_eq!(x.response.status, ApiStatus::InvalidEncoding);
}
