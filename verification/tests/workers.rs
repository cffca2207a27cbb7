use cube::clock::Timestamp;
use cube::container::{DockerOp, OpReply};
use cube::task::{Task, TaskState};
use cube::worker::{TaskAction, TaskFlow, TaskJob, TaskRun, Worker, WorkerStatus};

fn task(id: u128, state: TaskState) -> Task {
    let mut t = Task::new(id, "Task".to_string(), state, "alpine".to_string(), 64, 1);
    t.env_vars.push("A=1".to_string());
    t.nano_cpus = 100;
    t
}

fn job(run: TaskRun) -> (TaskJob, TaskAction) {
    match run {
        TaskRun::Job { job, action } => (job, action),
        TaskRun::Finished { result } => panic!("expected a job, got {:?}", result),
    }
}

fn result_of(action: TaskAction) -> cube::container::DockerResult {
    match action {
        TaskAction::Finished { result } => result,
        other => panic!("expected the end of the job, got {:?}", other),
    }
}

#[test]
fn new_worker() {
    let w = Worker::new("worker-1".to_string());
    assert_eq!(w.name, "worker-1");
    assert!(w.queue.is_empty());
    assert!(w.db.is_empty());
    assert_eq!(w.task_count, 0);
    assert_eq!(w.status, WorkerStatus::Idle);
    assert_eq!(w.collect_stats(), "I will collect stats");
}

#[test]
fn add_task_queues_in_order_and_counts() {
    let mut w = Worker::new("w".to_string());
    w.add_task(task(1, TaskState::Pending));
    w.add_task(task(2, TaskState::Pending));
    assert_eq!(w.task_count, 2);
    assert_eq!(w.queue.len(), 2);
    assert_eq!(w.queue[0].id, 1);
    assert_eq!(w.queue[1].id, 2);
    let stats = w.get_stats();
    assert_eq!(stats.name, "w");
    assert_eq!(stats.queue_size, 2);
    assert_eq!(stats.tasks_in_db, 0);
    assert_eq!(stats.task_count, 2);
    assert_eq!(stats.status, WorkerStatus::Idle);
}

#[test]
fn empty_queue_is_a_noop() {
    let mut w = Worker::new("w".to_string());
    match w.run_task() {
        TaskRun::Finished { result } => {
            assert!(result.is_success());
            assert_eq!(result.action, "noop");
            assert_eq!(result.container_id, "");
        }
        TaskRun::Job { .. } => panic!("nothing was queued"),
    }
}

#[test]
fn tasks_are_taken_first_in_first_out() {
    let mut w = Worker::new("w".to_string());
    w.add_task(task(1, TaskState::Pending));
    w.add_task(task(2, TaskState::Pending));
    let _ = w.run_task_at(at(10));
    assert_eq!(w.queue.len(), 1);
    assert_eq!(w.queue[0].id, 2);
    assert!(w.db.contains_key(&1));
    assert!(!w.db.contains_key(&2));
}

#[test]
fn a_new_task_cannot_move_to_its_own_state() {
    let mut w = Worker::new("w".to_string());
    w.add_task(task(5, TaskState::Pending));
    match w.run_task_at(at(10)) {
        TaskRun::Finished { result } => {
            assert_eq!(result.action, "transition");
            assert_eq!(result.error, Some("Invalid transition from Pending to Pending".to_string()));
        }
        TaskRun::Job { .. } => panic!("pending to pending is no move"),
    }
    assert_eq!(w.db.get(&5).unwrap().state.debug_text(), "Pending");
}

#[test]
fn a_valid_move_to_a_state_with_no_action() {
    let mut w = Worker::new("w".to_string());
    w.db.insert(3, task(3, TaskState::Scheduled));
    w.add_task(task(3, TaskState::Running { started_at: at(0) }));
    match w.run_task_at(at(10)) {
        TaskRun::Finished { result } => {
            assert_eq!(result.action, "invalid_state");
            assert_eq!(
                result.error,
                Some("We should not get here: invalid state Running { started_at: 1970-01-01T00:00:00Z }".to_string())
            );
        }
        TaskRun::Job { .. } => panic!("running is not started by the worker"),
    }
}

#[test]
fn scheduling_a_stored_pending_task_starts_it() {
    let mut w = Worker::new("w".to_string());
    w.db.insert(0x11, task(0x11, TaskState::Pending));
    w.add_task(task(0x11, TaskState::Scheduled));
    let (mut j, action) = job(w.run_task_at(at(1_000)));
    assert_eq!(j.flow, TaskFlow::Start);
    assert_eq!(j.started_at, at(1_000));
    match action {
        TaskAction::Connect { config } => {
            assert_eq!(config.name, Some("task-00000000-0000-0000-0000-000000000011".to_string()));
            assert_eq!(config.image, "alpine");
            assert_eq!(config.env, vec!["A=1".to_string()]);
            assert_eq!(config.nano_cpus, 100);
            assert_eq!(config.memory, 64);
        }
        other => panic!("expected a connection, got {:?}", other),
    }
    let a = w.advance_task_at(&mut j, OpReply::Done, at(1_001));
    assert!(matches!(a, TaskAction::Docker { op: DockerOp::PullImage { .. } }));
    let a = w.advance_task_at(&mut j, OpReply::Done, at(1_002));
    assert!(matches!(a, TaskAction::Docker { op: DockerOp::CreateContainer { .. } }));
    let a = w.advance_task_at(&mut j, OpReply::Created { id: "cid".to_string() }, at(1_003));
    assert!(matches!(a, TaskAction::Docker { op: DockerOp::StartContainer { .. } }));
    let a = w.advance_task_at(&mut j, OpReply::Done, at(1_004));
    assert!(matches!(a, TaskAction::Docker { op: DockerOp::FetchLogs { .. } }));
    let r = result_of(w.advance_task_at(&mut j, OpReply::Done, at(1_005)));
    assert!(r.is_success());
    assert_eq!(r.container_id, "cid");
    let stored = w.get_task(0x11).unwrap();
    assert_eq!(stored.container_id, Some("cid".to_string()));
    assert_eq!(stored.state.debug_text(), TaskState::Running { started_at: at(1_000) }.debug_text());
}

#[test]
fn a_failed_start_marks_the_task_failed() {
    let w = Worker::new("w".to_string());
    let mut t = task(8, TaskState::Scheduled);
    let (mut j, _) = job(w.start_task_at(&t, at(50)));
    assert!(j.accepts(&OpReply::Done));
    assert!(!j.accepts(&OpReply::Created { id: "x".to_string() }));
    let _ = j.advance_at(&mut t, OpReply::Done, at(51));
    let r = result_of(j.advance_at(&mut t, OpReply::Failed { message: "no image".to_string() }, at(52)));
    assert_eq!(r.action, "pull");
    assert!(matches!(t.state, TaskState::Failed { ref error, finished_at } if error == "no image" && finished_at == at(52)));
    assert!(t.container_id.is_none());
    assert!(!j.accepts(&OpReply::Done));
}

#[test]
fn a_failed_connection_fails_a_start_but_not_a_stop() {
    let w = Worker::new("w".to_string());
    let mut t = task(8, TaskState::Scheduled);
    let (mut j, _) = job(w.start_task_at(&t, at(50)));
    let r = result_of(j.advance_at(&mut t, OpReply::Failed { message: "no socket".to_string() }, at(60)));
    assert_eq!(r.action, "docker_init");
    assert!(matches!(t.state, TaskState::Failed { finished_at, .. } if finished_at == at(60)));

    let mut t = task(9, TaskState::Running { started_at: at(1) });
    t.container_id = Some("c".to_string());
    let (mut j, _) = job(w.stop_task(&t));
    let r = result_of(j.advance_at(&mut t, OpReply::Failed { message: "no socket".to_string() }, at(60)));
    assert_eq!(r.action, "docker_init");
    assert!(matches!(t.state, TaskState::Running { started_at } if started_at == at(1)));
}

#[test]
fn completing_a_running_task_stops_its_container() {
    let mut w = Worker::new("w".to_string());
    let mut stored = task(4, TaskState::Running { started_at: at(7) });
    stored.container_id = Some("c4".to_string());
    w.db.insert(4, stored);
    w.add_task(task(4, TaskState::Completed { finished_at: at(0) }));
    let (mut j, action) = job(w.run_task_at(at(20)));
    assert_eq!(j.flow, TaskFlow::Stop);
    assert!(matches!(action, TaskAction::Connect { ref config } if config.name == Some("task-00000000-0000-0000-0000-000000000004".to_string())));
    let a = w.advance_task_at(&mut j, OpReply::Done, at(21));
    assert!(matches!(a, TaskAction::Docker { op: DockerOp::StopContainer { ref id, .. } } if id == "c4"));
    let a = w.advance_task_at(&mut j, OpReply::Done, at(22));
    assert!(matches!(a, TaskAction::Docker { op: DockerOp::RemoveContainer { ref id, options } } if id == "c4" && options.remove_volumes && !options.force));
    let r = result_of(w.advance_task_at(&mut j, OpReply::Failed { message: "busy".to_string() }, at(23)));
    assert_eq!(r.action, "remove");
    assert!(matches!(w.db.get(&4).unwrap().state, TaskState::Completed { finished_at } if finished_at == at(23)));
}

#[test]
fn completing_a_task_without_container() {
    let mut w = Worker::new("w".to_string());
    w.db.insert(6, task(6, TaskState::Running { started_at: at(7) }));
    w.add_task(task(6, TaskState::Completed { finished_at: at(0) }));
    match w.run_task_at(at(20)) {
        TaskRun::Finished { result } => {
            assert_eq!(result.action, "no_container");
            assert_eq!(
                result.error,
                Some("Task 00000000-0000-0000-0000-000000000006 has no container ID".to_string())
            );
        }
        TaskRun::Job { .. } => panic!("there is no container to stop"),
    }
}

#[test]
fn start_task_reads_the_clock() {
    let w = Worker::new("w".to_string());
    let t = task(1, TaskState::Pending);
    let (j, _) = job(w.start_task(&t));
    assert!(j.started_at.secs > 1_600_000_000);
}

#[test]
fn get_and_update_stored_tasks() {
    let mut w = Worker::new("w".to_string());
    assert!(w.get_task(1).is_none());
    assert!(!w.update_task_state(1, |t| t));
    w.db.insert(1, task(1, TaskState::Pending));
    assert!(w.update_task_state(1, |mut t| {
        t.state = TaskState::Scheduled;
        t
    }));
    assert_eq!(w.get_task(1).unwrap().state.debug_text(), "Scheduled");
    assert_eq!(w.get_stats().tasks_in_db, 1);
}

fn at(secs: i64) -> Timestamp {
    Timestamp { secs, nanos: 0 }
}
