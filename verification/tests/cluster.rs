use cube::manager::Manager;
use cube::node::Node;
use cube::scheduler::{Scheduler, SimpleScheduler};

#[test]
fn new_node() {
    let n = Node::new("Node-1".to_string(), "192.168.1.1".to_string(), 4, 1024, 25, "worker".to_string());
    assert_eq!(n.name, "Node-1");
    assert_eq!(n.ip, "192.168.1.1");
    assert_eq!(n.cores, 4);
    assert_eq!(n.memory, 1024);
    assert_eq!(n.memory_allocated, 0);
    assert_eq!(n.disk, 25);
    assert_eq!(n.disk_allocated, 0);
    assert_eq!(n.role, "worker");
    assert_eq!(n.task_count, 0);
}

#[test]
fn new_manager_is_empty() {
    let mut m = Manager::new();
    assert!(m.pending.is_empty());
    assert!(m.task_db.is_empty());
    assert!(m.event_db.is_empty());
    assert!(m.workers.is_empty());
    assert!(m.worker_task_map.is_empty());
    assert!(m.task_worker_map.is_empty());
    m.workers.push("worker-1".to_string());
    assert_eq!(m.workers.len(), 1);
    assert!(Manager::default().workers.is_empty());
    assert_eq!(m.select_worker(), "I will select an appropriate worker");
    assert_eq!(m.update_tasks(), "I will update tasks");
    assert_eq!(m.send_work(), "I will send work to workers");
}

#[test]
fn simple_scheduler_announces_its_stages() {
    let s = SimpleScheduler;
    assert_eq!(s.select_candidate_nodes(), "Selecting candidate nodes");
    assert_eq!(s.score(), "Scoring nodes");
    assert_eq!(s.pick(), "Picking best node");
}
