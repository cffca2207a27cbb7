use vstd::prelude::*;
use std::collections::HashMap;
use crate::clock::{timestamp_text, Timestamp};
use crate::text::{copy_text_opt, copy_texts, quoted, quoted_text};
use crate::container::{opt_text, texts};
use vstd::std_specs::cmp::PartialEqSpecImpl;

verus! {

/// Where a task stands in its life. Instants are counted from the Unix epoch.
#[derive(Debug)]
pub enum TaskState {
    /// Waiting to be assigned to a worker.
    Pending,
    /// Assigned, not started yet.
    Scheduled,
    /// Running since `started_at`.
    Running { started_at: Timestamp },
    /// Finished normally at `finished_at`.
    Completed { finished_at: Timestamp },
    /// Finished with `error` at `finished_at`.
    Failed { error: String, finished_at: Timestamp },
}

/// A task state with its error message as a sequence of characters.
pub enum TaskStateView {
    Pending,
    Scheduled,
    Running { started_at: Timestamp },
    Completed { finished_at: Timestamp },
    Failed { error: Seq<char>, finished_at: Timestamp },
}

/// How far along its life a state is: waiting, scheduled, running, finished.
pub open spec fn state_rank(s: TaskStateView) -> int {
    match s {
        TaskStateView::Pending => 0,
        TaskStateView::Scheduled => 1,
        TaskStateView::Running { .. } => 2,
        _ => 3,
    }
}

impl View for TaskState {
    type V = TaskStateView;

    open spec fn view(&self) -> TaskStateView {
        match self {
            TaskState::Pending => TaskStateView::Pending,
            TaskState::Scheduled => TaskStateView::Scheduled,
            TaskState::Running { started_at } => TaskStateView::Running { started_at: *started_at },
            TaskState::Completed { finished_at } => TaskStateView::Completed { finished_at: *finished_at },
            TaskState::Failed { error, finished_at } => TaskStateView::Failed {
                error: error@,
                finished_at: *finished_at,
            },
        }
    }
}

/// A task is active while it waits or runs.
pub open spec fn state_is_active(s: TaskStateView) -> bool {
    s is Pending || s is Scheduled || s is Running
}

/// A task is terminal once it has completed or failed.
pub open spec fn state_is_terminal(s: TaskStateView) -> bool {
    s is Completed || s is Failed
}

/// The moves between states that the worker accepts: a new task starts pending, a
/// pending task is scheduled, a scheduled task starts running, a running task
/// completes; a task that has not finished yet may fail.
pub open spec fn transition_allowed(src: Option<TaskStateView>, dst: TaskStateView) -> bool {
    match (src, dst) {
        (None, TaskStateView::Pending) => true,
        (Some(TaskStateView::Pending), TaskStateView::Scheduled) => true,
        (Some(TaskStateView::Pending), TaskStateView::Failed { .. }) => true,
        (Some(TaskStateView::Scheduled), TaskStateView::Running { .. }) => true,
        (Some(TaskStateView::Scheduled), TaskStateView::Failed { .. }) => true,
        (Some(TaskStateView::Running { .. }), TaskStateView::Completed { .. }) => true,
        (Some(TaskStateView::Running { .. }), TaskStateView::Failed { .. }) => true,
        _ => false,
    }
}

/// The `{:?}` text of a state.
pub open spec fn state_text(s: TaskStateView) -> Seq<char> {
    match s {
        TaskStateView::Pending => "Pending"@,
        TaskStateView::Scheduled => "Scheduled"@,
        TaskStateView::Running { started_at } => "Running { started_at: "@ + timestamp_text(started_at) + " }"@,
        TaskStateView::Completed { finished_at } => "Completed { finished_at: "@
            + timestamp_text(finished_at) + " }"@,
        TaskStateView::Failed { error, finished_at } => "Failed { error: "@ + quoted_text(error)
            + ", finished_at: "@ + timestamp_text(finished_at) + " }"@,
    }
}

impl Clone for TaskState {
    fn clone(&self) -> (copy: Self)
        ensures
            copy@ == self@,
    {
        match self {
            TaskState::Pending => TaskState::Pending,
            TaskState::Scheduled => TaskState::Scheduled,
            TaskState::Running { started_at } => TaskState::Running { started_at: *started_at },
            TaskState::Completed { finished_at } => TaskState::Completed { finished_at: *finished_at },
            TaskState::Failed { error, finished_at } => TaskState::Failed {
                error: error.clone(),
                finished_at: *finished_at,
            },
        }
    }
}

impl PartialEq for TaskState {
    fn eq(&self, other: &Self) -> (same: bool) {
        match (self, other) {
            (TaskState::Pending, TaskState::Pending) => true,
            (TaskState::Scheduled, TaskState::Scheduled) => true,
            (TaskState::Running { started_at: a }, TaskState::Running { started_at: b }) => *a == *b,
            (TaskState::Completed { finished_at: a }, TaskState::Completed { finished_at: b }) => *a == *b,
            (
                TaskState::Failed { error: e, finished_at: a },
                TaskState::Failed { error: f, finished_at: b },
            ) => *e == *f && *a == *b,
            _ => false,
        }
    }
}

impl PartialEqSpecImpl for TaskState {
    open spec fn obeys_eq_spec() -> bool {
        true
    }

    /// Two states are equal when they are the same kind of state with the same
    /// instant and the same message.
    open spec fn eq_spec(&self, other: &Self) -> bool {
        self@ == other@
    }
}

impl TaskState {
    /// Whether the task waits or runs.
    pub fn is_active(&self) -> (active: bool)
        ensures
            active == state_is_active(self@),
    {
        match self {
            TaskState::Pending | TaskState::Scheduled | TaskState::Running { .. } => true,
            _ => false,
        }
    }

    /// Whether the task has completed or failed.
    pub fn is_terminal(&self) -> (terminal: bool)
        ensures
            terminal == state_is_terminal(self@),
    {
        match self {
            TaskState::Completed { .. } | TaskState::Failed { .. } => true,
            _ => false,
        }
    }

    /// The state as `{:?}` writes it.
    pub fn debug_text(&self) -> (text: String)
        ensures
            text@ == state_text(self@),
    {
        match self {
            TaskState::Pending => String::from_str("Pending"),
            TaskState::Scheduled => String::from_str("Scheduled"),
            TaskState::Running { started_at } => {
                let at = started_at.debug_text();
                String::from_str("Running { started_at: ").concat(at.as_str()).concat(" }")
            },
            TaskState::Completed { finished_at } => {
                let at = finished_at.debug_text();
                String::from_str("Completed { finished_at: ").concat(at.as_str()).concat(" }")
            },
            TaskState::Failed { error, finished_at } => {
                let q = quoted(error.as_str());
                let at = finished_at.debug_text();
                String::from_str("Failed { error: ").concat(q.as_str()).concat(
                    ", finished_at: ",
                ).concat(at.as_str()).concat(" }")
            },
        }
    }
}

/// How the container of a task is restarted when it exits.
#[derive(Clone, Copy, Debug, PartialEq, Eq, Structural)]
pub enum RestartPolicy {
    No,
    Always,
    OnFailure { max_retries: Option<u32> },
    UnlessStopped,
}

impl Default for RestartPolicy {
    fn default() -> (policy: Self)
        ensures
            policy == RestartPolicy::No,
    {
        RestartPolicy::No
    }
}

/// A host port that a container port is published on.
#[derive(Debug)]
pub struct PortBinding {
    pub host_ip: Option<String>,
    pub host_port: Option<String>,
}

impl Clone for PortBinding {
    fn clone(&self) -> (copy: Self)
        ensures
            copy == *self,
    {
        PortBinding { host_ip: copy_text_opt(&self.host_ip), host_port: copy_text_opt(&self.host_port) }
    }
}

/// A copy of a list of port bindings.
pub fn copy_bindings(v: &Vec<PortBinding>) -> (copy: Vec<PortBinding>)
    ensures
        copy@ == v@,
{
    let mut out: Vec<PortBinding> = Vec::new();
    let mut i: usize = 0;
    while i < v.len()
        invariant
            i <= v@.len(),
            out@ == v@.take(i as int),
        decreases v@.len() - i,
    {
        out.push(v[i].clone());
        assert(v@.take(i as int + 1) =~= v@.take(i as int).push(v@[i as int]));
        i = i + 1;
    }
    assert(v@.take(v@.len() as int) =~= v@);
    out
}

/// A copy of a list of ports.
pub fn copy_ports(v: &Vec<u16>) -> (copy: Vec<u16>)
    ensures
        copy@ == v@,
{
    let mut out: Vec<u16> = Vec::new();
    let mut i: usize = 0;
    while i < v.len()
        invariant
            i <= v@.len(),
            out@ == v@.take(i as int),
        decreases v@.len() - i,
    {
        out.push(v[i]);
        assert(v@.take(i as int + 1) =~= v@.take(i as int).push(v@[i as int]));
        i = i + 1;
    }
    assert(v@.take(v@.len() as int) =~= v@);
    out
}

/// A unit of work: an image to run in a container, with its resources.
/// `nano_cpus` counts billionths of a core; `memory` and `disk` count bytes.
#[derive(Debug)]
pub struct Task {
    pub id: u128,
    pub name: String,
    pub image: String,
    pub state: TaskState,
    pub nano_cpus: i64,
    pub memory: i64,
    pub disk: i64,
    pub container_id: Option<String>,
    pub exposed_ports: Vec<u16>,
    pub port_bindings: Vec<PortBinding>,
    pub restart_policy: RestartPolicy,
    pub env_vars: Vec<String>,
    pub labels: HashMap<String, String>,
}

/// What a task holds, with its texts as sequences of characters.
pub struct TaskView {
    pub id: u128,
    pub name: Seq<char>,
    pub image: Seq<char>,
    pub state: TaskStateView,
    pub nano_cpus: i64,
    pub memory: i64,
    pub disk: i64,
    pub container_id: Option<Seq<char>>,
    pub exposed_ports: Seq<u16>,
    pub port_bindings: Seq<PortBinding>,
    pub restart_policy: RestartPolicy,
    pub env_vars: Seq<Seq<char>>,
    pub labels: Map<String, String>,
}

impl View for Task {
    type V = TaskView;

    open spec fn view(&self) -> TaskView {
        TaskView {
            id: self.id,
            name: self.name@,
            image: self.image@,
            state: self.state@,
            nano_cpus: self.nano_cpus,
            memory: self.memory,
            disk: self.disk,
            container_id: opt_text(self.container_id),
            exposed_ports: self.exposed_ports@,
            port_bindings: self.port_bindings@,
            restart_policy: self.restart_policy,
            env_vars: texts(self.env_vars@),
            labels: self.labels@,
        }
    }
}

impl Clone for Task {
    fn clone(&self) -> (copy: Self)
        ensures
            copy@ == self@,
    {
        Task {
            id: self.id,
            name: self.name.clone(),
            image: self.image.clone(),
            state: self.state.clone(),
            nano_cpus: self.nano_cpus,
            memory: self.memory,
            disk: self.disk,
            container_id: copy_text_opt(&self.container_id),
            exposed_ports: copy_ports(&self.exposed_ports),
            port_bindings: copy_bindings(&self.port_bindings),
            restart_policy: self.restart_policy,
            env_vars: copy_texts(&self.env_vars),
            labels: self.labels.clone(),
        }
    }
}

impl Task {
    /// A task with the given identity, state, image and limits; no CPU share, no
    /// container yet, no ports, no environment, no labels, and the `No` restart policy.
    pub fn new(id: u128, name: String, state: TaskState, image: String, memory: i64, disk: i64) -> (task: Self)
        ensures
            task.id == id,
            task.name@ == name@,
            task.state@ == state@,
            task.image@ == image@,
            task.memory == memory,
            task.disk == disk,
            task.nano_cpus == 0,
            task.container_id is None,
            task.exposed_ports@.len() == 0,
            task.port_bindings@.len() == 0,
            task.restart_policy == RestartPolicy::No,
            task.env_vars@.len() == 0,
            task.labels@ == Map::<String, String>::empty(),
    {
        Task {
            id,
            name,
            state,
            image,
            memory,
            disk,
            nano_cpus: 0,
            container_id: None,
            exposed_ports: Vec::new(),
            port_bindings: Vec::new(),
            restart_policy: RestartPolicy::No,
            env_vars: Vec::new(),
            labels: HashMap::new(),
        }
    }
}

/// A recorded change of a task's state, at `timestamp`.
#[derive(Debug)]
pub struct TaskEvent {
    pub id: u128,
    pub state: TaskState,
    pub timestamp: Timestamp,
    pub task: Task,
}

impl TaskEvent {
    /// An event that holds exactly what it is given.
    pub fn new(id: u128, state: TaskState, timestamp: Timestamp, task: Task) -> (event: Self)
        ensures
            event.id == id,
            event.state == state,
            event.timestamp == timestamp,
            event.task == task,
    {
        TaskEvent { id, state, timestamp, task }
    }
}

/// Every state is either active or terminal, never both.
pub proof fn lemma_active_xor_terminal(s: TaskStateView)
    ensures
        state_is_active(s) <==> !state_is_terminal(s),
{
}

/// A terminal state is final: no move leaves it.
pub proof fn lemma_terminal_is_final(s: TaskStateView, d: TaskStateView)
    requires
        state_is_terminal(s),
    ensures
        !transition_allowed(Some(s), d),
{
}

/// Every allowed move goes forward in the life of a task, so no sequence of moves
/// ever comes back to a state it left.
pub proof fn lemma_transitions_go_forward(s: TaskStateView, d: TaskStateView)
    requires
        transition_allowed(Some(s), d),
    ensures
        state_rank(s) < state_rank(d),
{
}

/// Only a new task can be pending, and a new task can only be pending.
pub proof fn lemma_new_tasks_are_pending(src: Option<TaskStateView>, d: TaskStateView)
    ensures
        src is None ==> (transition_allowed(src, d) <==> d is Pending),
        d is Pending ==> (transition_allowed(src, d) <==> src is None),
{
}

/// A task that has not finished yet can always fail, with any message at any time.
pub proof fn lemma_active_can_fail(s: TaskStateView, error: Seq<char>, at: Timestamp)
    requires
        state_is_active(s),
    ensures
        transition_allowed(Some(s), TaskStateView::Failed { error, finished_at: at }),
{
}

} // verus!
