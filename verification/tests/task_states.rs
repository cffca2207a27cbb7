use cube::clock::Timestamp;
use cube::task::{RestartPolicy, Task, TaskEvent, TaskState};
use cube::worker::Worker;

#[test]
fn active_and_terminal_states() {
    assert!(TaskState::Pending.is_active());
    assert!(TaskState::Scheduled.is_active());
    assert!(TaskState::Running { started_at: at(5) }.is_active());
    assert!(!TaskState::Completed { finished_at: at(5) }.is_active());
    assert!(!TaskState::Failed { error: "x".to_string(), finished_at: at(5) }.is_active());
    assert!(TaskState::Completed { finished_at: at(5) }.is_terminal());
    assert!(TaskState::Failed { error: "x".to_string(), finished_at: at(5) }.is_terminal());
    assert!(!TaskState::Pending.is_terminal());
}

#[test]
fn allowed_transitions() {
    let pending = TaskState::Pending;
    let scheduled = TaskState::Scheduled;
    let running = TaskState::Running { started_at: at(1) };
    let completed = TaskState::Completed { finished_at: at(2) };
    let failed = TaskState::Failed { error: "boom".to_string(), finished_at: at(2) };
    assert!(Worker::valid_state_transition(None, &pending));
    assert!(!Worker::valid_state_transition(None, &scheduled));
    assert!(Worker::valid_state_transition(Some(&pending), &scheduled));
    assert!(Worker::valid_state_transition(Some(&pending), &failed));
    assert!(Worker::valid_state_transition(Some(&scheduled), &running));
    assert!(Worker::valid_state_transition(Some(&scheduled), &failed));
    assert!(Worker::valid_state_transition(Some(&running), &completed));
    assert!(Worker::valid_state_transition(Some(&running), &failed));
    assert!(!Worker::valid_state_transition(Some(&pending), &running));
    assert!(!Worker::valid_state_transition(Some(&scheduled), &scheduled));
    assert!(!Worker::valid_state_transition(Some(&running), &pending));
}

#[test]
fn terminal_states_have_no_way_out() {
    let all = vec![
        TaskState::Pending,
        TaskState::Scheduled,
        TaskState::Running { started_at: at(1) },
        TaskState::Completed { finished_at: at(1) },
        TaskState::Failed { error: String::new(), finished_at: at(1) },
    ];
    for src in [TaskState::Completed { finished_at: at(3) }, TaskState::Failed { error: "e".to_string(), finished_at: at(3) }] {
        for dst in &all {
            assert!(!Worker::valid_state_transition(Some(&src), dst));
        }
    }
}

#[test]
fn debug_text_of_states() {
    assert_eq!(TaskState::Pending.debug_text(), "Pending");
    assert_eq!(TaskState::Scheduled.debug_text(), "Scheduled");
    assert_eq!(
        TaskState::Running { started_at: at(0) }.debug_text(),
        "Running { started_at: 1970-01-01T00:00:00Z }"
    );
    assert_eq!(
        TaskState::Completed { finished_at: Timestamp { secs: 1, nanos: 500_000_007 } }.debug_text(),
        "Completed { finished_at: 1970-01-01T00:00:01.500000007Z }"
    );
    assert_eq!(
        TaskState::Failed { error: "bad \"image\"".to_string(), finished_at: at(0) }.debug_text(),
        "Failed { error: \"bad \\\"image\\\"\", finished_at: 1970-01-01T00:00:00Z }"
    );
}

#[test]
fn new_task_has_defaults() {
    let t = Task::new(7, "Task-1".to_string(), TaskState::Pending, "postgres:16".to_string(), 256, 1);
    assert_eq!(t.id, 7);
    assert_eq!(t.name, "Task-1");
    assert_eq!(t.image, "postgres:16");
    assert_eq!(t.memory, 256);
    assert_eq!(t.disk, 1);
    assert_eq!(t.nano_cpus, 0);
    assert!(t.container_id.is_none());
    assert!(t.exposed_ports.is_empty());
    assert!(t.port_bindings.is_empty());
    assert_eq!(t.restart_policy, RestartPolicy::No);
    assert_eq!(RestartPolicy::default(), RestartPolicy::No);
    assert!(t.env_vars.is_empty());
    assert!(t.labels.is_empty());
}

#[test]
fn task_clone_keeps_contents() {
    let mut t = Task::new(9, "n".to_string(), TaskState::Running { started_at: at(4) }, "img".to_string(), 1, 2);
    t.env_vars.push("A=1".to_string());
    t.container_id = Some("abc".to_string());
    t.exposed_ports.push(80);
    t.labels.insert("k".to_string(), "v".to_string());
    let c = t.clone();
    assert_eq!(c.env_vars, vec!["A=1".to_string()]);
    assert_eq!(c.container_id, Some("abc".to_string()));
    assert_eq!(c.exposed_ports, vec![80]);
    assert_eq!(c.labels.get("k"), Some(&"v".to_string()));
    assert_eq!(c.state.debug_text(), t.state.debug_text());
}

#[test]
fn task_event_holds_what_it_is_given() {
    let t = Task::new(1, "a".to_string(), TaskState::Pending, "i".to_string(), 1, 1);
    let e = TaskEvent::new(2, TaskState::Pending, at(99), t);
    assert_eq!(e.id, 2);
    assert_eq!(e.timestamp, at(99));
    assert_eq!(e.task.id, 1);
    assert_eq!(e.state.debug_text(), "Pending");
}

#[test]
fn states_compare_by_kind_instant_and_message() {
    assert_eq!(TaskState::Pending, TaskState::Pending);
    assert_ne!(TaskState::Pending, TaskState::Scheduled);
    assert_eq!(TaskState::Running { started_at: at(3) }, TaskState::Running { started_at: at(3) });
    assert_ne!(TaskState::Running { started_at: at(3) }, TaskState::Running { started_at: at(4) });
    assert_ne!(TaskState::Running { started_at: at(3) }, TaskState::Completed { finished_at: at(3) });
    assert_eq!(
        TaskState::Failed { error: "e".to_string(), finished_at: at(1) },
        TaskState::Failed { error: "e".to_string(), finished_at: at(1) }
    );
    assert_ne!(
        TaskState::Failed { error: "e".to_string(), finished_at: at(1) },
        TaskState::Failed { error: "f".to_string(), finished_at: at(1) }
    );
}

#[test]
fn instants_before_the_epoch_and_far_ahead() {
    assert_eq!(
        TaskState::Running { started_at: at(-1) }.debug_text(),
        "Running { started_at: 1969-12-31T23:59:59Z }"
    );
    assert_eq!(
        TaskState::Running { started_at: at(10_000_000_000) }.debug_text(),
        "Running { started_at: 2286-11-20T17:46:40Z }"
    );
    assert_eq!(
        TaskState::Running { started_at: at(i64::MAX) }.debug_text(),
        "Running { started_at: (no such date) }"
    );
    assert_eq!(
        TaskState::Running { started_at: Timestamp { secs: 0, nanos: 2_000_000_000 } }.debug_text(),
        "Running { started_at: (no such date) }"
    );
}

fn at(secs: i64) -> Timestamp {
    Timestamp { secs, nanos: 0 }
}
