use shadowmask::greeting::greet;
use shadowmask::launch::{Action, Event, LaunchError, Launcher, OpenMode, Stage};
use shadowmask::paths::Separator;

fn resolved(dir: &str) -> Event {
    Event::SelfPathResolved(Some(dir.to_string()))
}

#[test]
fn successful_startup_end_to_end() {
    let mut l = Launcher::new(Separator::Slash);
    assert_eq!(l.action(), Action::ResolveSelfPath);
    l.advance(resolved("/opt/app"));
    assert_eq!(
        l.action(),
        Action::OpenLog {
            path: "/opt/app/backend.log".to_string(),
            mode: OpenMode { create: true, append: true, truncate: false },
        }
    );
    l.advance(Event::Succeeded);
    assert_eq!(
        l.action(),
        Action::WriteLog {
            text: "[INFO] Launching Python backend at: /opt/app/bin/main.exe\n".to_string(),
        }
    );
    l.advance(Event::Succeeded);
    assert_eq!(l.action(), Action::DuplicateLog);
    l.advance(Event::Succeeded);
    assert_eq!(l.action(), Action::Spawn { program: "/opt/app/bin/main.exe".to_string() });
    assert!(!l.is_finished());
    l.advance(Event::Succeeded);
    assert_eq!(l.stage, Stage::Done);
    assert_eq!(l.action(), Action::Finish);
    assert!(l.is_finished());
}

#[test]
fn log_is_opened_for_append_without_truncation() {
    let mut l = Launcher::new(Separator::Slash);
    l.advance(resolved("/opt/app"));
    match l.action() {
        Action::OpenLog { mode, .. } => {
            assert!(mode.append);
            assert!(mode.create);
            assert!(!mode.truncate);
        }
        other => panic!("unexpected action {:?}", other),
    }
}

#[test]
fn unknown_executable_path_aborts() {
    let mut l = Launcher::new(Separator::Slash);
    l.advance(Event::SelfPathResolved(None));
    assert_eq!(l.stage, Stage::Failed(LaunchError::PathResolution));
    assert_eq!(l.action(), Action::Abort { error: LaunchError::PathResolution });
    assert!(l.is_finished());
}

#[test]
fn log_open_failure_never_spawns() {
    let mut l = Launcher::new(Separator::Slash);
    l.advance(resolved("/opt/app"));
    l.advance(Event::Failed);
    assert_eq!(l.action(), Action::Abort { error: LaunchError::LogOpen });
    for _ in 0..5 {
        l.advance(Event::Succeeded);
        assert_eq!(l.action(), Action::Abort { error: LaunchError::LogOpen });
    }
}

#[test]
fn log_write_failure_aborts() {
    let mut l = Launcher::new(Separator::Slash);
    l.advance(resolved("/opt/app"));
    l.advance(Event::Succeeded);
    l.advance(Event::Failed);
    assert_eq!(l.action(), Action::Abort { error: LaunchError::LogWrite });
}

#[test]
fn handle_duplication_failure_aborts() {
    let mut l = Launcher::new(Separator::Slash);
    l.advance(resolved("/opt/app"));
    l.advance(Event::Succeeded);
    l.advance(Event::Succeeded);
    l.advance(Event::Failed);
    assert_eq!(l.action(), Action::Abort { error: LaunchError::HandleDuplication });
}

#[test]
fn missing_backend_spawn_failure_aborts() {
    let mut l = Launcher::new(Separator::Slash);
    l.advance(resolved("/opt/app"));
    l.advance(Event::Succeeded);
    l.advance(Event::Succeeded);
    l.advance(Event::Succeeded);
    l.advance(Event::Failed);
    assert_eq!(l.stage, Stage::Failed(LaunchError::Spawn));
    assert_eq!(l.action(), Action::Abort { error: LaunchError::Spawn });
}

#[test]
fn unexpected_event_counts_as_failure() {
    let mut l = Launcher::new(Separator::Slash);
    l.advance(Event::Succeeded);
    assert_eq!(l.stage, Stage::Failed(LaunchError::PathResolution));
    let mut m = Launcher::new(Separator::Slash);
    m.advance(resolved("/opt/app"));
    m.advance(resolved("/elsewhere"));
    assert_eq!(m.stage, Stage::Failed(LaunchError::LogOpen));
    assert_eq!(m.exe_dir, "/opt/app");
}

#[test]
fn greet_formats_name() {
    assert_eq!(greet("Ada"), "Hello, Ada! This is Rust speaking.");
    assert_eq!(greet(""), "Hello, ! This is Rust speaking.");
}
