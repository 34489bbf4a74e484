use app_bootstrap::lifecycle::{
    abort_message, replay, step, Action, Event, Failure, Stage, Transition,
};

const EVENTS: [Event; 3] = [Event::InstallFailed, Event::SetupCompleted, Event::RunLoopFailed];

const STAGES: [Stage; 4] = [
    Stage::Starting,
    Stage::Running,
    Stage::Terminated(Failure::Setup),
    Stage::Terminated(Failure::RunLoop),
];

#[test]
fn starting_runs_once_setup_completed() {
    assert_eq!(
        step(Stage::Starting, Event::SetupCompleted),
        Transition { stage: Stage::Running, action: Action::StartRunLoop }
    );
}

#[test]
fn starting_ends_on_a_failed_install() {
    assert_eq!(
        step(Stage::Starting, Event::InstallFailed),
        Transition { stage: Stage::Terminated(Failure::Setup), action: Action::FailSetup }
    );
}

#[test]
fn run_loop_failure_ends_a_live_launch() {
    for stage in [Stage::Starting, Stage::Running] {
        assert_eq!(
            step(stage, Event::RunLoopFailed),
            Transition { stage: Stage::Terminated(Failure::RunLoop), action: Action::Abort }
        );
    }
}

#[test]
fn running_ignores_setup_events() {
    for event in [Event::InstallFailed, Event::SetupCompleted] {
        assert_eq!(
            step(Stage::Running, event),
            Transition { stage: Stage::Running, action: Action::Nothing }
        );
    }
}

#[test]
fn terminated_stays_as_it_is() {
    for failure in [Failure::Setup, Failure::RunLoop] {
        for event in EVENTS {
            assert_eq!(
                step(Stage::Terminated(failure), event),
                Transition { stage: Stage::Terminated(failure), action: Action::Nothing }
            );
        }
    }
}

#[test]
fn no_step_returns_to_starting() {
    for stage in STAGES {
        for event in EVENTS {
            assert_ne!(step(stage, event).stage, Stage::Starting);
        }
    }
}

#[test]
fn replay_of_nothing_is_starting() {
    assert_eq!(replay(&Vec::new()), Stage::Starting);
}

#[test]
fn replay_of_a_clean_launch_is_running() {
    assert_eq!(replay(&vec![Event::SetupCompleted]), Stage::Running);
}

#[test]
fn replay_of_a_late_run_loop_failure() {
    assert_eq!(
        replay(&vec![Event::SetupCompleted, Event::RunLoopFailed]),
        Stage::Terminated(Failure::RunLoop)
    );
}

#[test]
fn failed_install_bars_the_run_loop() {
    for second in EVENTS {
        for third in EVENTS {
            let events = vec![Event::InstallFailed, second, third];
            assert_eq!(replay(&events), Stage::Terminated(Failure::Setup));
            let mut stage = Stage::Starting;
            let mut first = true;
            for event in events {
                let transition = step(stage, event);
                if first {
                    assert_eq!(transition.action, Action::FailSetup);
                    first = false;
                } else {
                    assert_eq!(transition.action, Action::Nothing);
                }
                assert_ne!(transition.stage, Stage::Running);
                stage = transition.stage;
            }
        }
    }
}

#[test]
fn replay_agrees_with_repeated_steps() {
    for a in EVENTS {
        for b in EVENTS {
            for c in EVENTS {
                let mut stage = Stage::Starting;
                for event in [a, b, c] {
                    stage = step(stage, event).stage;
                }
                assert_eq!(replay(&vec![a, b, c]), stage);
            }
        }
    }
}

#[test]
fn abort_message_is_the_fixed_diagnostic() {
    assert_eq!(abort_message(), "error while running tauri application");
}
