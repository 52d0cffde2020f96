use watchrun::command::CommandSpec;
use watchrun::event::{EntryKind, EventKind, ModifyKind};
use watchrun::orchestrator::{Action, ChangeEvent, Input, Orchestrator, WatchConfig, WatchState};

fn config(extensions: &[&str]) -> WatchConfig {
    WatchConfig {
        directory: "work".to_string(),
        extensions: extensions.iter().map(|e| e.to_string()).collect(),
        command: CommandSpec::ShellLine("make".to_string()),
    }
}

fn change(kind: EventKind, path: &str, timestamp: u64) -> Input {
    Input::Change(ChangeEvent { kind, paths: vec![path.to_string()], timestamp })
}

fn written(path: &str, timestamp: u64) -> Input {
    change(EventKind::Modify(ModifyKind::Data), path, timestamp)
}

#[test]
fn two_writes_lead_to_one_run() {
    let mut orchestrator = Orchestrator::new(config(&["txt"]), 1000, 500);
    assert_eq!(orchestrator.state(), WatchState::Watching);
    assert_eq!(orchestrator.step(change(EventKind::Create(EntryKind::File), "a.txt", 0)), Action::Continue);
    assert_eq!(orchestrator.state(), WatchState::Pending);
    let mut runs: Vec<u64> = Vec::new();
    let mut now: u64 = 100;
    while now <= 3000 {
        if now == 100 {
            assert_eq!(orchestrator.step(written("b.txt", 100)), Action::Continue);
        }
        match orchestrator.step(Input::Tick(now)) {
            Action::Run => {
                runs.push(now);
                assert_eq!(orchestrator.state(), WatchState::Running);
                assert_eq!(orchestrator.step(Input::CommandFinished), Action::Continue);
                assert_eq!(orchestrator.state(), WatchState::Watching);
            }
            other => assert_eq!(other, Action::Continue),
        }
        now += 100;
    }
    assert_eq!(runs, vec![600]);
}

#[test]
fn a_later_burst_leads_to_a_second_run() {
    let mut orchestrator = Orchestrator::new(config(&["txt"]), 1000, 500);
    orchestrator.step(written("a.txt", 0));
    assert_eq!(orchestrator.step(Input::Tick(400)), Action::Continue);
    assert_eq!(orchestrator.step(Input::Tick(500)), Action::Run);
    assert_eq!(orchestrator.step(Input::CommandFinished), Action::Continue);
    assert_eq!(orchestrator.step(Input::Tick(600)), Action::Continue);
    orchestrator.step(written("a.txt", 2000));
    assert_eq!(orchestrator.step(Input::Tick(2499)), Action::Continue);
    assert_eq!(orchestrator.step(Input::Tick(2500)), Action::Run);
}

#[test]
fn events_that_do_not_count_are_passed_over() {
    let mut orchestrator = Orchestrator::new(config(&["txt"]), 1000, 500);
    assert_eq!(orchestrator.step(written("a.rs", 0)), Action::Continue);
    assert_eq!(orchestrator.state(), WatchState::Watching);
    assert_eq!(orchestrator.step(change(EventKind::Modify(ModifyKind::Metadata), "a.txt", 10)), Action::Continue);
    assert_eq!(orchestrator.step(change(EventKind::Create(EntryKind::Folder), "dir.txt", 20)), Action::Continue);
    assert_eq!(orchestrator.step(change(EventKind::Access, "a.txt", 30)), Action::Continue);
    assert_eq!(
        orchestrator.step(Input::Change(ChangeEvent {
            kind: EventKind::Modify(ModifyKind::Data),
            paths: Vec::new(),
            timestamp: 40,
        })),
        Action::Continue
    );
    assert_eq!(orchestrator.state(), WatchState::Watching);
    assert_eq!(orchestrator.step(Input::Tick(5000)), Action::Continue);
}

#[test]
fn one_matching_path_is_enough() {
    let mut orchestrator = Orchestrator::new(config(&["txt"]), 1000, 500);
    let event = ChangeEvent {
        kind: EventKind::Modify(ModifyKind::Name),
        paths: vec!["old.bak".to_string(), "new.txt".to_string()],
        timestamp: 7,
    };
    assert!(orchestrator.accepts(&event));
    assert_eq!(orchestrator.step(Input::Change(event)), Action::Continue);
    assert_eq!(orchestrator.state(), WatchState::Pending);
    assert_eq!(orchestrator.step(Input::Tick(507)), Action::Run);
}

#[test]
fn with_no_extensions_every_file_counts() {
    let mut orchestrator = Orchestrator::new(config(&[]), 1000, 500);
    orchestrator.step(written("Makefile", 0));
    assert_eq!(orchestrator.state(), WatchState::Pending);
    assert_eq!(orchestrator.step(Input::Tick(500)), Action::Run);
}

#[test]
fn nothing_is_taken_in_while_the_command_runs() {
    let mut orchestrator = Orchestrator::new(config(&[]), 1000, 500);
    orchestrator.step(written("a", 0));
    assert_eq!(orchestrator.step(Input::Tick(500)), Action::Run);
    assert_eq!(orchestrator.step(Input::Tick(1500)), Action::Ignore);
    assert_eq!(orchestrator.step(written("b", 1600)), Action::Ignore);
    assert_eq!(orchestrator.state(), WatchState::Running);
    assert_eq!(orchestrator.step(Input::CommandFinished), Action::Continue);
    assert_eq!(orchestrator.step(Input::Tick(9000)), Action::Continue);
    assert_eq!(orchestrator.step(written("b", 9100)), Action::Continue);
    assert_eq!(orchestrator.step(Input::Tick(9600)), Action::Run);
}

#[test]
fn command_finished_belongs_to_a_run() {
    let mut orchestrator = Orchestrator::new(config(&[]), 1000, 500);
    assert_eq!(orchestrator.step(Input::CommandFinished), Action::Ignore);
    orchestrator.step(written("a", 0));
    assert_eq!(orchestrator.step(Input::CommandFinished), Action::Ignore);
    assert_eq!(orchestrator.state(), WatchState::Pending);
    assert_eq!(orchestrator.step(Input::Tick(500)), Action::Run);
}

#[test]
fn a_source_error_is_logged_and_the_loop_goes_on() {
    let mut orchestrator = Orchestrator::new(config(&[]), 1000, 500);
    assert_eq!(orchestrator.step(Input::SourceError), Action::LogError);
    assert_eq!(orchestrator.state(), WatchState::Watching);
    orchestrator.step(written("a", 0));
    assert_eq!(orchestrator.step(Input::SourceError), Action::LogError);
    assert_eq!(orchestrator.state(), WatchState::Pending);
    assert_eq!(orchestrator.step(Input::Tick(500)), Action::Run);
    assert_eq!(orchestrator.step(Input::SourceError), Action::LogError);
    assert_eq!(orchestrator.state(), WatchState::Running);
}

#[test]
fn a_disconnect_stops_the_loop_from_any_state() {
    let mut watching = Orchestrator::new(config(&[]), 1000, 500);
    assert_eq!(watching.step(Input::Disconnected), Action::Stop);
    assert_eq!(watching.state(), WatchState::Stopped);

    let mut pending = Orchestrator::new(config(&[]), 1000, 500);
    pending.step(written("a", 0));
    assert_eq!(pending.step(Input::Disconnected), Action::Stop);
    assert_eq!(pending.state(), WatchState::Stopped);

    let mut running = Orchestrator::new(config(&[]), 1000, 500);
    running.step(written("a", 0));
    running.step(Input::Tick(500));
    assert_eq!(running.step(Input::Disconnected), Action::Stop);
    assert_eq!(running.state(), WatchState::Stopped);
}

#[test]
fn a_stopped_loop_takes_nothing_in() {
    let mut orchestrator = Orchestrator::new(config(&[]), 1000, 500);
    orchestrator.step(written("a", 0));
    orchestrator.step(Input::Disconnected);
    assert_eq!(orchestrator.step(Input::Tick(5000)), Action::Ignore);
    assert_eq!(orchestrator.step(written("a", 5000)), Action::Ignore);
    assert_eq!(orchestrator.step(Input::SourceError), Action::Ignore);
    assert_eq!(orchestrator.step(Input::Disconnected), Action::Ignore);
    assert_eq!(orchestrator.step(Input::CommandFinished), Action::Ignore);
    assert_eq!(orchestrator.state(), WatchState::Stopped);
}

#[test]
fn the_configuration_is_kept() {
    let mut orchestrator = Orchestrator::new(config(&["rs", "toml"]), 1000, 500);
    orchestrator.step(written("a.rs", 0));
    orchestrator.step(Input::Tick(500));
    assert_eq!(orchestrator.config(), &config(&["rs", "toml"]));
}
