use ccgt::run_loop::{step, Action, Event, RunState};

#[test]
fn startup_success_enters_running() {
    assert_eq!(step(RunState::Starting, Event::StartupSucceeded), (RunState::Running, Action::Idle));
}

#[test]
fn startup_failure_stops_with_failure() {
    assert_eq!(
        step(RunState::Starting, Event::StartupFailed),
        (RunState::Stopped, Action::Exit { success: false })
    );
}

#[test]
fn shutdown_flag_stops_within_one_more_step() {
    let mut state = RunState::Starting;
    let mut ticks = 0;
    let mut exit = None;
    let mut events = vec![Event::StartupSucceeded];
    events.extend([false, false, false].iter().map(|&f| Event::Poll { shutdown: f }));
    events.extend([true, true, true].iter().map(|&f| Event::Poll { shutdown: f }));
    let mut ticks_after_flag = 0;
    let mut flag_seen = false;
    for e in events {
        if e == (Event::Poll { shutdown: true }) {
            flag_seen = true;
        }
        let (next, action) = step(state, e);
        state = next;
        match action {
            Action::Tick => {
                ticks += 1;
                if flag_seen {
                    ticks_after_flag += 1;
                }
            }
            Action::Exit { success } => exit = Some(success),
            Action::Idle => {}
        }
        if state == RunState::Stopped {
            break;
        }
    }
    assert_eq!(ticks, 3);
    assert_eq!(ticks_after_flag, 0);
    assert_eq!(state, RunState::Stopped);
    assert_eq!(exit, Some(true));
}

#[test]
fn stopped_is_terminal() {
    assert_eq!(step(RunState::Stopped, Event::Poll { shutdown: false }), (RunState::Stopped, Action::Idle));
    assert_eq!(step(RunState::Stopped, Event::StartupSucceeded), (RunState::Stopped, Action::Idle));
}
