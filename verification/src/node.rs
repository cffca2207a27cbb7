use vstd::prelude::*;

verus! {

/// A machine of the cluster that can host workers.
#[derive(Debug, Clone)]
pub struct Node {
    pub name: String,
    pub ip: String,
    pub cores: i32,
    pub memory: i32,
    pub memory_allocated: i32,
    pub disk: i32,
    pub disk_allocated: i32,
    pub role: String,
    pub task_count: i32,
}

impl Node {
    /// A fresh node: nothing allocated on it yet and no task placed on it.
    pub fn new(name: String, ip: String, cores: i32, memory: i32, disk: i32, role: String) -> (node: Self)
        ensures
            node.name == name,
            node.ip == ip,
            node.cores == cores,
            node.memory == memory,
            node.memory_allocated == 0,
            node.disk == disk,
            node.disk_allocated == 0,
            node.role == role,
            node.task_count == 0,
    {
        Node { name, ip, cores, memory, memory_allocated: 0, disk, disk_allocated: 0, role, task_count: 0 }
    }
}

} // verus!
