use cube::clock::Timestamp;
use cube::container::{restart_policy_named, RestartPolicyName};
use cube::task::{Task, TaskState};
use cube::worker::{TaskRun, Worker};

fn no_container_message(id: u128) -> String {
    let w = Worker::new("w".to_string());
    let t = Task::new(id, "t".to_string(), TaskState::Running { started_at: at(0) }, "img".to_string(), 1, 1);
    match w.stop_task(&t) {
        TaskRun::Finished { result } => result.error.expect("a failure"),
        TaskRun::Job { .. } => panic!("a task without a container has nothing to stop"),
    }
}

#[test]
fn identifier_text_is_hyphenated_hex() {
    assert_eq!(no_container_message(0), "Task 00000000-0000-0000-0000-000000000000 has no container ID");
    assert_eq!(
        no_container_message(0xa1a2a3a4_b1b2_c1c2_d1d2_d3d4d5d6d7d8),
        "Task a1a2a3a4-b1b2-c1c2-d1d2-d3d4d5d6d7d8 has no container ID"
    );
    assert_eq!(
        no_container_message(u128::MAX),
        "Task ffffffff-ffff-ffff-ffff-ffffffffffff has no container ID"
    );
}

#[test]
fn restart_policy_names() {
    assert_eq!(restart_policy_named("always"), RestartPolicyName::Always);
    assert_eq!(restart_policy_named("on-failure"), RestartPolicyName::OnFailure);
    assert_eq!(restart_policy_named("unless-stopped"), RestartPolicyName::UnlessStopped);
    assert_eq!(restart_policy_named("no"), RestartPolicyName::No);
    assert_eq!(restart_policy_named("alway"), RestartPolicyName::No);
    assert_eq!(restart_policy_named("alwayss"), RestartPolicyName::No);
    assert_eq!(restart_policy_named(""), RestartPolicyName::No);
}

fn at(secs: i64) -> Timestamp {
    Timestamp { secs, nanos: 0 }
}
