use cda_runtime_update::error::ReloadError;
use cda_runtime_update::notify::{NotifyAction, NotifyRun};
use cda_runtime_update::registry::UpdateableRegistry;

/// A component that records its priority when notified and may fail.
struct Recorder {
    priority: u32,
    fail: bool,
}

fn register_all(components: Vec<Recorder>) -> UpdateableRegistry<Recorder> {
    let mut registry: UpdateableRegistry<Recorder> = UpdateableRegistry::new();
    for component in components {
        let priority = component.priority;
        let current: Vec<u32> = (0..registry.len())
            .map(|index| registry.component(index).priority)
            .collect();
        registry.register(component, priority, &current);
    }
    registry
}

/// Drives a notification run the way an asynchronous caller does, recording
/// the priorities of the notified components.
fn notify_all(registry: &UpdateableRegistry<Recorder>, calls: &mut Vec<u32>) -> Result<(), ReloadError> {
    let mut run = NotifyRun::start(registry);
    while let NotifyAction::Notify(index) = run.action() {
        let component = registry.component(index);
        calls.push(component.priority);
        let outcome = if component.fail {
            Err(ReloadError::General("failed".to_owned()))
        } else {
            Ok(())
        };
        run.record(outcome);
    }
    run.finish()
}

#[test]
fn notifies_in_priority_order() {
    let mut calls = Vec::new();
    let registry = register_all(
        [30, 10, 20]
            .into_iter()
            .map(|priority| Recorder { priority, fail: false })
            .collect(),
    );

    notify_all(&registry, &mut calls).unwrap();

    assert_eq!(calls, [10, 20, 30]);
}

#[test]
fn stops_after_first_error() {
    let mut calls = Vec::new();
    let registry = register_all(
        [(10, false), (20, true), (30, false)]
            .into_iter()
            .map(|(priority, fail)| Recorder { priority, fail })
            .collect(),
    );

    assert!(notify_all(&registry, &mut calls).is_err());
    assert_eq!(calls, [10, 20]);
}

#[test]
fn first_error_is_the_reload_error() {
    let mut calls = Vec::new();
    let registry = register_all(vec![
        Recorder { priority: 5, fail: true },
        Recorder { priority: 7, fail: true },
    ]);

    let result = notify_all(&registry, &mut calls);

    assert_eq!(result, Err(ReloadError::General("failed".to_owned())));
    assert_eq!(calls, [5]);
}

#[test]
fn equal_priorities_keep_registration_order() {
    let mut registry = UpdateableRegistry::new();
    let mut current: Vec<u32> = Vec::new();
    for (name, priority) in [
        ("first", 20),
        ("early", 10),
        ("second", 20),
        ("late", 30),
        ("third", 20),
    ] {
        registry.register(name, priority, &current);
        current = (0..registry.len()).map(|i| registry.priority(i)).collect();
    }

    let order: Vec<&str> = (0..registry.len()).map(|i| *registry.component(i)).collect();
    let priorities: Vec<u32> = (0..registry.len()).map(|i| registry.priority(i)).collect();

    assert_eq!(order, ["early", "first", "second", "third", "late"]);
    assert_eq!(priorities, [10, 20, 20, 20, 30]);
}

#[test]
fn empty_registry_reload_succeeds_without_notifying() {
    let registry: UpdateableRegistry<Recorder> = UpdateableRegistry::default();
    let mut calls = Vec::new();

    assert_eq!(registry.len(), 0);
    assert!(notify_all(&registry, &mut calls).is_ok());
    assert!(calls.is_empty());
}

#[test]
fn run_actions_walk_the_registry_in_order() {
    let registry = register_all(vec![
        Recorder { priority: 2, fail: false },
        Recorder { priority: 1, fail: false },
    ]);
    let mut run = NotifyRun::start(&registry);

    assert_eq!(run.action(), NotifyAction::Notify(0));
    run.record(Ok(()));
    assert_eq!(run.action(), NotifyAction::Notify(1));
    run.record(Ok(()));
    assert_eq!(run.action(), NotifyAction::Finished);
    assert_eq!(run.finish(), Ok(()));
}

#[test]
fn run_finishes_right_after_a_failure() {
    let registry = register_all(vec![
        Recorder { priority: 1, fail: false },
        Recorder { priority: 2, fail: false },
        Recorder { priority: 3, fail: false },
    ]);
    let mut run = NotifyRun::start(&registry);

    assert_eq!(run.action(), NotifyAction::Notify(0));
    run.record(Err(ReloadError::ReplacementFailure("router gone".to_owned())));
    assert_eq!(run.action(), NotifyAction::Finished);
    assert_eq!(
        run.finish(),
        Err(ReloadError::ReplacementFailure("router gone".to_owned()))
    );
}

#[test]
fn registration_reorders_by_current_priorities() {
    let mut registry = UpdateableRegistry::new();
    registry.register("a", 10, &vec![]);
    registry.register("b", 20, &vec![10]);
    // "a" now reports 30, so the next registration moves it behind "b".
    registry.register("c", 25, &vec![30, 20]);

    let order: Vec<&str> = (0..registry.len()).map(|i| *registry.component(i)).collect();
    let priorities: Vec<u32> = (0..registry.len()).map(|i| registry.priority(i)).collect();

    assert_eq!(order, ["b", "c", "a"]);
    assert_eq!(priorities, [20, 25, 30]);
}
