use igor::answer::Answer;
use igor::flow::{Action, Event, Failure, Place};
use igor::startup::StartState;

fn actions_for(events: &[Event]) -> (Vec<Action>, StartState) {
    let mut state = StartState::start();
    let mut actions = vec![state.action()];
    for event in events {
        state = state.step(*event);
        actions.push(state.action());
    }
    (actions, state)
}

const ALL_EVENTS: [Event; 10] = [
    Event::Exists(true),
    Event::Exists(false),
    Event::Symlink(true),
    Event::Symlink(false),
    Event::Answered(Answer::Yes),
    Event::Answered(Answer::No),
    Event::Answered(Answer::Invalid),
    Event::Done,
    Event::Failed,
    Event::Malformed,
];

#[test]
fn start_begins_by_looking_for_the_settings_folder() {
    let state = StartState::start();
    assert_eq!(state, StartState::CheckingConfigDir);
    assert_eq!(state.action(), Action::ProbeExists(Place::ConfigDir));
    assert_eq!(state.outcome(), None);
}

#[test]
fn first_start_makes_the_folder_and_an_empty_config() {
    let (actions, state) =
        actions_for(&[Event::Exists(false), Event::Done, Event::Exists(false), Event::Done]);
    assert_eq!(
        actions,
        vec![
            Action::ProbeExists(Place::ConfigDir),
            Action::CreateDir(Place::ConfigDir),
            Action::ProbeExists(Place::ConfigFile),
            Action::WriteEmptyConfig(Place::ConfigFile),
            Action::Stop,
        ]
    );
    assert_eq!(state.outcome(), Some(Ok(())));
}

#[test]
fn start_loads_the_config_that_is_there() {
    let (actions, state) = actions_for(&[Event::Exists(true), Event::Exists(true), Event::Done]);
    assert_eq!(
        actions,
        vec![
            Action::ProbeExists(Place::ConfigDir),
            Action::ProbeExists(Place::ConfigFile),
            Action::LoadConfig,
            Action::Stop,
        ]
    );
    assert_eq!(state.outcome(), Some(Ok(())));
}

#[test]
fn start_writes_an_empty_config_into_an_empty_folder() {
    let (actions, state) = actions_for(&[Event::Exists(true), Event::Exists(false), Event::Done]);
    assert_eq!(
        actions[2..],
        [Action::WriteEmptyConfig(Place::ConfigFile), Action::Stop]
    );
    assert_eq!(state, StartState::Succeeded);
}

#[test]
fn each_failed_action_ends_the_start_with_its_failure() {
    let cases: [(&[Event], Failure); 4] = [
        (&[Event::Exists(false), Event::Failed], Failure::CreateConfigDir),
        (&[Event::Exists(true), Event::Exists(false), Event::Failed], Failure::ConfigWrite),
        (&[Event::Exists(true), Event::Exists(true), Event::Failed], Failure::ConfigRead),
        (&[Event::Exists(true), Event::Exists(true), Event::Malformed], Failure::ConfigParse),
    ];
    for (events, failure) in cases {
        let (actions, state) = actions_for(events);
        assert_eq!(state, StartState::Failed(failure));
        assert_eq!(state.outcome(), Some(Err(failure)));
        assert_eq!(actions.last(), Some(&Action::Stop));
    }
}

#[test]
fn an_outcome_that_cannot_be_ends_the_start() {
    let waiting = [
        (StartState::CheckingConfigDir, vec![Event::Exists(true), Event::Exists(false)]),
        (StartState::CreatingConfigDir, vec![Event::Done, Event::Failed]),
        (StartState::CheckingConfigFile, vec![Event::Exists(true), Event::Exists(false)]),
        (StartState::WritingEmptyConfig, vec![Event::Done, Event::Failed]),
        (StartState::LoadingConfig, vec![Event::Done, Event::Failed, Event::Malformed]),
    ];
    for (state, expected) in waiting {
        for event in ALL_EVENTS {
            let next = state.step(event);
            if expected.contains(&event) {
                assert_ne!(next, StartState::Failed(Failure::UnexpectedEvent), "{state:?} {event:?}");
            } else {
                assert_eq!(next, StartState::Failed(Failure::UnexpectedEvent), "{state:?} {event:?}");
            }
        }
    }
}

#[test]
fn a_start_that_is_over_stays_as_it_is() {
    for state in [StartState::Succeeded, StartState::Failed(Failure::ConfigParse)] {
        assert_eq!(state.action(), Action::Stop);
        assert!(state.outcome().is_some());
        for event in ALL_EVENTS {
            assert_eq!(state.step(event), state);
        }
    }
}

fn longest_run(state: StartState, depth: usize) -> usize {
    if state.action() == Action::Stop {
        return 0;
    }
    assert!(depth > 0, "{state:?} is still under way");
    let mut longest = 0;
    for event in ALL_EVENTS {
        longest = longest.max(1 + longest_run(state.step(event), depth - 1));
    }
    longest
}

#[test]
fn every_start_is_over_after_four_outcomes() {
    assert_eq!(longest_run(StartState::start(), 4), 4);
}
