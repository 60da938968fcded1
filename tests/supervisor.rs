use backend_supervisor::decimal::to_decimal;
use backend_supervisor::launch::launch_plan;
use backend_supervisor::launch::CREATE_NO_WINDOW;
use backend_supervisor::paths::join_path;
use backend_supervisor::paths::primary_candidate;
use backend_supervisor::paths::resolve_backend_path;
use backend_supervisor::platform::Platform;
use backend_supervisor::slot::BackendSlot;
use backend_supervisor::slot::LiveBackend;
use backend_supervisor::slot::Phase;
use backend_supervisor::teardown::teardown_plan;
use backend_supervisor::teardown::KillStrategy;
use backend_supervisor::teardown::TeardownAction;

fn is_kill_handle(a: &TeardownAction) -> bool {
    matches!(a, TeardownAction::KillHandle)
}

#[test]
fn primary_selected_when_present() {
    let loc = resolve_backend_path(Platform::Unix, "/res", true);
    assert_eq!(loc.executable, "/res/backend");
    assert_eq!(loc.directory, "/res");
}

#[test]
fn fallback_selected_when_primary_absent() {
    let loc = resolve_backend_path(Platform::Unix, "/res", false);
    assert_eq!(loc.executable, "/res/binaries/backend");
    assert_eq!(loc.directory, "/res/binaries");
}

#[test]
fn windows_candidates() {
    assert_eq!(primary_candidate(Platform::Windows, "C:\\App"), "C:\\App\\backend.exe");
    let loc = resolve_backend_path(Platform::Windows, "C:\\App", false);
    assert_eq!(loc.executable, "C:\\App\\binaries\\backend-x86_64-pc-windows-msvc.exe");
    assert_eq!(loc.directory, "C:\\App\\binaries");
    let loc = resolve_backend_path(Platform::Windows, "C:\\App", true);
    assert_eq!(loc.executable, "C:\\App\\backend.exe");
    assert_eq!(loc.directory, "C:\\App");
}

#[test]
fn join_respects_trailing_separator() {
    assert_eq!(join_path(Platform::Unix, "/res/", "backend"), "/res/backend");
    assert_eq!(join_path(Platform::Unix, "", "backend"), "backend");
    assert_eq!(join_path(Platform::Windows, "C:/App/", "backend.exe"), "C:/App/backend.exe");
    assert_eq!(join_path(Platform::Unix, "/res\\", "backend"), "/res\\/backend");
}

#[test]
fn primary_candidate_unix() {
    assert_eq!(primary_candidate(Platform::Unix, "/opt/app/resources"), "/opt/app/resources/backend");
}

#[test]
fn launch_plan_configuration() {
    let loc = resolve_backend_path(Platform::Windows, "C:\\App", true);
    let plan = launch_plan(Platform::Windows, &loc);
    assert_eq!(plan.program, "C:\\App\\backend.exe");
    assert_eq!(plan.working_dir, "C:\\App");
    assert!(plan.inherit_stdout);
    assert!(plan.inherit_stderr);
    assert_eq!(plan.creation_flags, Some(0x0800_0000));
    assert_eq!(CREATE_NO_WINDOW, 0x0800_0000);

    let loc = resolve_backend_path(Platform::Unix, "/res", false);
    let plan = launch_plan(Platform::Unix, &loc);
    assert_eq!(plan.program, "/res/binaries/backend");
    assert_eq!(plan.working_dir, "/res/binaries");
    assert_eq!(plan.creation_flags, None);
}

#[test]
fn decimal_rendering() {
    assert_eq!(to_decimal(0), "0");
    assert_eq!(to_decimal(7), "7");
    assert_eq!(to_decimal(10), "10");
    assert_eq!(to_decimal(4207), "4207");
    assert_eq!(to_decimal(u32::MAX), "4294967295");
}

#[test]
fn strategy_per_platform() {
    assert_eq!(KillStrategy::for_platform(Platform::Windows), KillStrategy::TreeThenDirect);
    assert_eq!(KillStrategy::for_platform(Platform::Unix), KillStrategy::DirectOnly);
}

#[test]
fn tree_kill_plan() {
    let plan = teardown_plan(KillStrategy::TreeThenDirect, 1234);
    assert_eq!(plan.len(), 2);
    match &plan[0] {
        TeardownAction::RunCommand(c) => {
            assert_eq!(c.program, "taskkill");
            assert_eq!(c.args, vec!["/F", "/T", "/PID", "1234"]);
            assert!(c.hide_window);
            assert!(c.wait_for_exit);
        }
        TeardownAction::KillHandle => panic!("tree kill must come first"),
    }
    assert!(is_kill_handle(&plan[1]));
}

#[test]
fn direct_kill_plan() {
    let plan = teardown_plan(KillStrategy::DirectOnly, 1234);
    assert_eq!(plan.len(), 1);
    assert!(is_kill_handle(&plan[0]));
}

#[test]
fn happy_path_launch_and_shutdown() {
    let loc = resolve_backend_path(Platform::Unix, "/res", true);
    assert_eq!(loc.executable, "/res/backend");
    let mut slot: BackendSlot<&str> = BackendSlot::new();
    assert_eq!(slot.current_phase(), Phase::NotStarted);
    assert!(slot.record_launch(Some(LiveBackend { handle: "child", pid: 4242 })));
    assert_eq!(slot.current_phase(), Phase::Running);
    assert!(slot.holds_backend());

    let t = slot.shutdown(KillStrategy::TreeThenDirect).expect("backend is held");
    assert_eq!(t.handle, "child");
    assert_eq!(t.pid, 4242);
    match &t.actions[0] {
        TeardownAction::RunCommand(c) => assert_eq!(c.args, vec!["/F", "/T", "/PID", "4242"]),
        TeardownAction::KillHandle => panic!("tree kill must come first"),
    }
    assert!(is_kill_handle(&t.actions[1]));
    assert!(!slot.holds_backend());
    assert_eq!(slot.current_phase(), Phase::Terminated);
}

#[test]
fn missing_binary_leaves_slot_empty() {
    let loc = resolve_backend_path(Platform::Unix, "/nowhere", false);
    assert_eq!(loc.executable, "/nowhere/binaries/backend");
    let mut slot: BackendSlot<u8> = BackendSlot::new();
    assert!(slot.record_launch(None));
    assert!(!slot.holds_backend());
    assert_eq!(slot.current_phase(), Phase::Terminated);
    assert!(slot.shutdown(KillStrategy::DirectOnly).is_none());
    assert!(!slot.holds_backend());
    assert_eq!(slot.current_phase(), Phase::Terminated);
}

#[test]
fn shutdown_twice_kills_once() {
    let mut slot: BackendSlot<u8> = BackendSlot::new();
    slot.record_launch(Some(LiveBackend { handle: 9, pid: 17 }));
    let first = slot.shutdown(KillStrategy::DirectOnly);
    let second = slot.shutdown(KillStrategy::DirectOnly);
    let t = first.expect("first shutdown takes the backend");
    assert_eq!(t.handle, 9);
    assert_eq!(t.actions.len(), 1);
    assert!(second.is_none());
    assert_eq!(slot.current_phase(), Phase::Terminated);
}

#[test]
fn many_shutdowns_take_once() {
    let mut slot: BackendSlot<u8> = BackendSlot::new();
    slot.record_launch(Some(LiveBackend { handle: 1, pid: 2 }));
    let taken = (0..8).filter(|_| slot.shutdown(KillStrategy::TreeThenDirect).is_some()).count();
    assert_eq!(taken, 1);
}

#[test]
fn shutdown_before_launch_is_noop() {
    let mut slot: BackendSlot<u8> = BackendSlot::new();
    assert!(slot.shutdown(KillStrategy::TreeThenDirect).is_none());
    assert_eq!(slot.current_phase(), Phase::NotStarted);
}

#[test]
fn launch_is_recorded_once() {
    let mut slot: BackendSlot<u8> = BackendSlot::new();
    assert!(slot.record_launch(Some(LiveBackend { handle: 1, pid: 10 })));
    assert!(!slot.record_launch(Some(LiveBackend { handle: 2, pid: 20 })));
    let t = slot.shutdown(KillStrategy::DirectOnly).expect("first backend is held");
    assert_eq!(t.pid, 10);
    assert!(!slot.record_launch(Some(LiveBackend { handle: 3, pid: 30 })));
    assert!(!slot.holds_backend());
}
