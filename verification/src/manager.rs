use vstd::prelude::*;
use std::collections::HashMap;
use std::collections::VecDeque;
use crate::task::{Task, TaskEvent};

verus! {

/// Keeps the tasks waiting to be placed, the tasks and events seen so far, the workers
/// it knows, and which worker runs which task.
#[derive(Debug)]
pub struct Manager {
    pub pending: VecDeque<Task>,
    pub task_db: HashMap<String, Vec<Task>>,
    pub event_db: HashMap<String, Vec<TaskEvent>>,
    pub workers: Vec<String>,
    pub worker_task_map: HashMap<String, Vec<u128>>,
    pub task_worker_map: HashMap<u128, String>,
}

impl Manager {
    /// Whether the manager holds nothing at all.
    pub open spec fn is_empty(&self) -> bool {
        &&& self.pending@.len() == 0
        &&& self.task_db@ == Map::<String, Vec<Task>>::empty()
        &&& self.event_db@ == Map::<String, Vec<TaskEvent>>::empty()
        &&& self.workers@.len() == 0
        &&& self.worker_task_map@ == Map::<String, Vec<u128>>::empty()
        &&& self.task_worker_map@ == Map::<u128, String>::empty()
    }

    /// A manager with no pending task, no record, and no worker.
    pub fn new() -> (manager: Self)
        ensures
            manager.is_empty(),
    {
        Manager {
            pending: VecDeque::new(),
            task_db: HashMap::new(),
            event_db: HashMap::new(),
            workers: Vec::new(),
            worker_task_map: HashMap::new(),
            task_worker_map: HashMap::new(),
        }
    }

    /// The line that announces choosing a worker.
    pub fn select_worker(&self) -> (line: String)
        ensures
            line@ == "I will select an appropriate worker"@,
    {
        String::from_str("I will select an appropriate worker")
    }

    /// The line that announces updating the tasks.
    pub fn update_tasks(&self) -> (line: String)
        ensures
            line@ == "I will update tasks"@,
    {
        String::from_str("I will update tasks")
    }

    /// The line that announces sending work to the workers.
    pub fn send_work(&self) -> (line: String)
        ensures
            line@ == "I will send work to workers"@,
    {
        String::from_str("I will send work to workers")
    }
}

impl Default for Manager {
    fn default() -> (manager: Self)
        ensures
            manager.is_empty(),
    {
        Manager::new()
    }
}

} // verus!
