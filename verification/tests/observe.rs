use progressor::{Action, Event, Observer, ProgressUpdate, State};

fn notified(action: Action<&'static str>) -> ProgressUpdate {
    match action {
        Action::Notify(update) => update,
        Action::Finish(_) => panic!("finished instead of notifying"),
        Action::Wait => panic!("waited instead of notifying"),
    }
}

#[test]
fn an_observer_starts_watching() {
    let observer = Observer::new();
    assert!(observer.is_watching());
}

#[test]
fn every_snapshot_goes_to_the_callback_as_it_is() {
    let mut observer = Observer::new();
    let update = ProgressUpdate::new(10, 4, State::Working, Some("four".to_string()));
    let action = observer.handle(Event::Update(update.clone()));
    assert_eq!(notified(action), update);
    assert!(observer.is_watching());
}

#[test]
fn a_terminal_snapshot_does_not_end_the_observation() {
    let mut observer = Observer::new();
    let update = ProgressUpdate::new(10, 10, State::Completed, None);
    let action = observer.handle(Event::Update(update.clone()));
    assert_eq!(notified(action), update);
    assert!(observer.is_watching());
}

#[test]
fn the_output_of_the_operation_ends_the_observation() {
    let mut observer = Observer::new();
    let action = observer.handle(Event::Resolved("done"));
    assert!(matches!(action, Action::Finish("done")));
    assert!(observer.is_watching());
}

#[test]
fn the_end_of_the_sequence_leaves_the_operation_to_wait_for() {
    let mut observer: Observer = Observer::new();
    let action = observer.handle(Event::<&'static str>::Ended);
    assert!(matches!(action, Action::Wait));
    assert!(!observer.is_watching());

    let action = observer.handle(Event::Resolved("late"));
    assert!(matches!(action, Action::Finish("late")));
    assert!(!observer.is_watching());
}

#[test]
fn an_observation_runs_until_the_operation_resolves() {
    let mut observer = Observer::new();
    let events = vec![
        Event::Update(ProgressUpdate::new(2, 1, State::Working, None)),
        Event::Update(ProgressUpdate::new(2, 2, State::Working, None)),
        Event::Update(ProgressUpdate::new(2, 2, State::Completed, None)),
        Event::Ended,
        Event::Resolved(7u32),
        Event::Update(ProgressUpdate::new(2, 9, State::Working, None)),
    ];
    let mut delivered = Vec::new();
    let mut output = None;
    for event in events {
        match observer.handle(event) {
            Action::Finish(value) => {
                output = Some(value);
                break;
            }
            Action::Notify(update) => delivered.push(update.current()),
            Action::Wait => {}
        }
    }
    assert_eq!(output, Some(7));
    assert_eq!(delivered, vec![1, 2, 2]);
}
