use vstd::prelude::*;
use std::collections::HashMap;
use std::collections::VecDeque;
use crate::clock::{now, unix_epoch, epoch, Timestamp};
use crate::container::{
    advance_job, begin_run, begin_stop, job_step, named_config, reply_fits, texts, ConfigView,
    ContainerConfig, DockerOp, DockerOpView, DockerResult, DockerResultView, JobStage, OpReply,
    failure_view, success_view,
};
use crate::ident::{id_string, id_text};
use crate::task::{state_text, transition_allowed, Task, TaskState, TaskStateView, TaskView};

verus! {

broadcast use vstd::std_specs::hash::group_hash_axioms;

/// What a worker is doing, for monitoring.
#[derive(Clone, Copy, Debug, PartialEq, Eq, Structural)]
pub enum WorkerStatus {
    Idle,
    Busy,
    Draining,
    Shutdown,
}

/// A snapshot of a worker's counters.
#[derive(Clone, Debug)]
pub struct WorkerStats {
    pub name: String,
    pub queue_size: usize,
    pub tasks_in_db: usize,
    pub task_count: i32,
    pub status: WorkerStatus,
}

/// Runs the tasks queued on it, one at a time, in Docker containers, and keeps
/// every task it has seen in `db`, by identifier.
#[derive(Debug)]
pub struct Worker {
    pub name: String,
    pub queue: VecDeque<Task>,
    pub db: HashMap<u128, Task>,
    pub task_count: i32,
    pub status: WorkerStatus,
}

/// A worker with its texts, queue and stored tasks taken by view.
pub struct WorkerView {
    pub name: Seq<char>,
    pub queue: Seq<TaskView>,
    pub tasks: Map<u128, TaskView>,
    pub task_count: i32,
    pub status: WorkerStatus,
}

impl View for Worker {
    type V = WorkerView;

    open spec fn view(&self) -> WorkerView {
        WorkerView {
            name: self.name@,
            queue: self.queue@.map_values(|t: Task| t@),
            tasks: self.db@.map_values(|t: Task| t@),
            task_count: self.task_count,
            status: self.status,
        }
    }
}

/// Which flow a task job follows.
#[derive(Clone, Copy, Debug, PartialEq, Eq, Structural)]
pub enum TaskFlow {
    /// Run the task's container and record it as running.
    Start,
    /// Stop and remove the task's container and record the task as completed.
    Stop,
}

/// Where a task job stands: connecting to the Docker engine, driving a container job,
/// or over.
#[derive(Debug)]
pub enum TaskPhase {
    Connect,
    Docker { stage: JobStage },
    Done,
}

/// Starting or stopping the container of task `task_id`, one engine answer at a time.
/// `started_at` is when a start began; `container_id` is the container that a stop acts on.
#[derive(Debug)]
pub struct TaskJob {
    pub task_id: u128,
    pub flow: TaskFlow,
    pub started_at: Timestamp,
    pub config: ContainerConfig,
    pub container_id: String,
    pub phase: TaskPhase,
}

/// A task job with its configuration taken by view.
pub struct TaskJobView {
    pub task_id: u128,
    pub flow: TaskFlow,
    pub started_at: Timestamp,
    pub config: ConfigView,
    pub container_id: String,
    pub phase: TaskPhase,
}

impl View for TaskJob {
    type V = TaskJobView;

    open spec fn view(&self) -> TaskJobView {
        TaskJobView {
            task_id: self.task_id,
            flow: self.flow,
            started_at: self.started_at,
            config: self.config@,
            container_id: self.container_id,
            phase: self.phase,
        }
    }
}

/// What the caller is to do next for a task job.
#[derive(Debug)]
pub enum TaskAction {
    /// Open a Docker client for this configuration; answer `Done` or `Failed`.
    Connect { config: ContainerConfig },
    /// Perform this operation with the client and answer with the engine's reply.
    Docker { op: DockerOp },
    /// The job is over with this result.
    Finished { result: DockerResult },
}

/// A task action with its contents taken by view.
pub enum TaskActionView {
    Connect { config: ConfigView },
    Docker { op: DockerOpView },
    Finished { result: DockerResultView },
}

impl View for TaskAction {
    type V = TaskActionView;

    open spec fn view(&self) -> TaskActionView {
        match self {
            TaskAction::Connect { config } => TaskActionView::Connect { config: config@ },
            TaskAction::Docker { op } => TaskActionView::Docker { op: op@ },
            TaskAction::Finished { result } => TaskActionView::Finished { result: result@ },
        }
    }
}

/// The container name of a task: `task-` and its identifier.
pub open spec fn container_name(id: u128) -> Seq<char> {
    "task-"@ + id_text(id)
}

/// The configuration that starts a task: its image under its container name, with its
/// environment, CPU share and memory limit, and defaults otherwise.
pub open spec fn start_config(t: TaskView) -> ConfigView {
    ConfigView {
        env: t.env_vars,
        nano_cpus: t.nano_cpus,
        memory: t.memory,
        ..named_config(Some(container_name(t.id)), t.image)
    }
}

/// The configuration that a stop connects with: the task's image under its container name.
pub open spec fn stop_config(t: TaskView) -> ConfigView {
    named_config(Some(container_name(t.id)), t.image)
}

/// The message of a stop asked for a task that has no container.
pub open spec fn no_container_text(id: u128) -> Seq<char> {
    "Task "@ + id_text(id) + " has no container ID"@
}

/// Which answers a task job can take next.
pub open spec fn job_accepts(phase: TaskPhase, reply: OpReply) -> bool {
    match phase {
        TaskPhase::Connect => reply is Done || reply is Failed,
        TaskPhase::Docker { stage } => reply_fits(stage, reply),
        TaskPhase::Done => false,
    }
}

/// What a finished container job leaves on the task: a start that failed marks the task
/// failed with the job's message at `now`; a start that succeeded records the container
/// and marks the task running since the job began; a stop marks it completed at `now`,
/// whatever the stop came to.
pub open spec fn settle(job: TaskJobView, task: TaskView, result: DockerResultView, now: Timestamp) -> TaskView {
    match job.flow {
        TaskFlow::Start => match result.error {
            Some(message) => TaskView {
                state: TaskStateView::Failed { error: message, finished_at: now },
                ..task
            },
            None => TaskView {
                container_id: Some(result.container_id),
                state: TaskStateView::Running { started_at: job.started_at },
                ..task
            },
        },
        TaskFlow::Stop => TaskView { state: TaskStateView::Completed { finished_at: now }, ..task },
    }
}

/// One step of a task job, given the engine's answer and the time `now`: the job's next
/// phase, the task as it then stands, and what to do next. A failed connection ends the
/// job with a `docker_init` failure (and marks a starting task failed at `now`); once
/// connected, the job pulls, creates and starts the container, or stops and removes it,
/// and when that container job ends, the task is settled (see `settle`).
pub open spec fn task_step(job: TaskJobView, task: TaskView, reply: OpReply, now: Timestamp) -> (TaskJobView, TaskView, TaskActionView) {
    match job.phase {
        TaskPhase::Connect => match reply {
            OpReply::Failed { message } => (
                TaskJobView { phase: TaskPhase::Done, ..job },
                match job.flow {
                    TaskFlow::Start => TaskView {
                        state: TaskStateView::Failed { error: message@, finished_at: now },
                        ..task
                    },
                    TaskFlow::Stop => task,
                },
                TaskActionView::Finished { result: failure_view("docker_init"@, message@) },
            ),
            _ => match job.flow {
                TaskFlow::Start => (
                    TaskJobView { phase: TaskPhase::Docker { stage: JobStage::Pull }, ..job },
                    task,
                    TaskActionView::Docker { op: DockerOpView::PullImage { image: job.config.image } },
                ),
                TaskFlow::Stop => (
                    TaskJobView { phase: TaskPhase::Docker { stage: JobStage::Stop { id: job.container_id } }, ..job },
                    task,
                    TaskActionView::Docker { op: DockerOpView::StopContainer {
                        id: job.container_id@,
                        options: crate::container::stop_options(),
                    } },
                ),
            },
        },
        TaskPhase::Docker { stage } => {
            let (next, op) = job_step(job.config, stage, reply);
            match op {
                DockerOpView::Finished { result } => (
                    TaskJobView { phase: TaskPhase::Done, ..job },
                    settle(job, task, result, now),
                    TaskActionView::Finished { result },
                ),
                _ => (
                    TaskJobView { phase: TaskPhase::Docker { stage: next }, ..job },
                    task,
                    TaskActionView::Docker { op },
                ),
            }
        },
        TaskPhase::Done => (job, task, TaskActionView::Finished { result: failure_view(Seq::empty(), Seq::empty()) }),
    }
}


/// How beginning the next piece of work turned out: already over with a result, or a
/// task job under way, with the first thing to do for it.
#[derive(Debug)]
pub enum TaskRun {
    Finished { result: DockerResult },
    Job { job: TaskJob, action: TaskAction },
}

/// A task run with its contents taken by view.
pub enum TaskRunView {
    Finished { result: DockerResultView },
    Job { job: TaskJobView, action: TaskActionView },
}

impl View for TaskRun {
    type V = TaskRunView;

    open spec fn view(&self) -> TaskRunView {
        match self {
            TaskRun::Finished { result } => TaskRunView::Finished { result: result@ },
            TaskRun::Job { job, action } => TaskRunView::Job { job: job@, action: action@ },
        }
    }
}

/// A start job for `task`, stored under `key`, begun at `now`: connect with the start
/// configuration.
pub open spec fn start_run(task: TaskView, key: u128, now: Timestamp) -> TaskRunView {
    TaskRunView::Job {
        job: TaskJobView {
            task_id: key,
            flow: TaskFlow::Start,
            started_at: now,
            config: start_config(task),
            container_id: arbitrary(),
            phase: TaskPhase::Connect,
        },
        action: TaskActionView::Connect { config: start_config(task) },
    }
}

/// Whether `run` is the start job that `start_run` describes, up to the (unused)
/// container of the job, which is empty.
pub open spec fn is_start_run(run: TaskRunView, task: TaskView, key: u128, now: Timestamp) -> bool {
    match (run, start_run(task, key, now)) {
        (TaskRunView::Job { job, action }, TaskRunView::Job { job: j, action: a }) => {
            &&& job == TaskJobView { container_id: job.container_id, ..j }
            &&& job.container_id@ == Seq::<char>::empty()
            &&& action == a
        },
        _ => false,
    }
}

/// Whether `run` is what stopping `task` begins with: a `no_container` failure when
/// the task has no container, else a stop job for its container (the task being stored
/// under `key`) that connects first.
pub open spec fn is_stop_run(run: TaskRunView, task: TaskView, key: u128) -> bool {
    match task.container_id {
        None => run == TaskRunView::Finished {
            result: failure_view("no_container"@, no_container_text(task.id)),
        },
        Some(cid) => match run {
            TaskRunView::Job { job, action } => {
                &&& job.task_id == key
                &&& job.flow == TaskFlow::Stop
                &&& job.started_at == epoch()
                &&& job.config == stop_config(task)
                &&& job.container_id@ == cid
                &&& job.phase == TaskPhase::Connect
                &&& action == TaskActionView::Connect { config: stop_config(task) }
            },
            _ => false,
        },
    }
}

impl Worker {
    /// The start configuration of `task` (see `start_config`).
    fn start_config_of(task: &Task) -> (config: ContainerConfig)
        ensures
            config@ == start_config(task@),
    {
        let id = id_string(task.id);
        let name = String::from_str("task-").concat(id.as_str());
        ContainerConfig::new(task.image.clone(), name).with_env(crate::text::copy_texts(&task.env_vars)).with_resources(
            task.nano_cpus,
            task.memory,
        )
    }

    /// A start job for `task`, stored under `key`, begun at `now`.
    fn begin_start(task: &Task, key: u128, now: Timestamp) -> (run: TaskRun)
        ensures
            is_start_run(run@, task@, key, now),
    {
        let config = Self::start_config_of(task);
        let action = TaskAction::Connect { config: config.clone() };
        let job = TaskJob {
            task_id: key,
            flow: TaskFlow::Start,
            started_at: now,
            config,
            container_id: String::new(),
            phase: TaskPhase::Connect,
        };
        TaskRun::Job { job, action }
    }

    /// What stopping `task`, stored under `key`, begins with.
    fn begin_stop_of(task: &Task, key: u128) -> (run: TaskRun)
        ensures
            is_stop_run(run@, task@, key),
    {
        match &task.container_id {
            None => {
                let msg = String::from_str("Task ").concat(id_string(task.id).as_str()).concat(
                    " has no container ID",
                );
                TaskRun::Finished { result: DockerResult::failure("no_container", msg) }
            },
            Some(cid) => {
                let name = String::from_str("task-").concat(id_string(task.id).as_str());
                let config = ContainerConfig::new(task.image.clone(), name);
                let action = TaskAction::Connect { config: config.clone() };
                let job = TaskJob {
                    task_id: key,
                    flow: TaskFlow::Stop,
                    started_at: unix_epoch(),
                    config,
                    container_id: cid.clone(),
                    phase: TaskPhase::Connect,
                };
                TaskRun::Job { job, action }
            },
        }
    }

    /// Begins starting `task` at `now`: a start job that first connects to the engine
    /// with the task's start configuration. The task itself is not changed.
    pub fn start_task_at(&self, task: &Task, now: Timestamp) -> (run: TaskRun)
        ensures
            is_start_run(run@, task@, task.id, now),
    {
        Self::begin_start(task, task.id, now)
    }

    /// Begins starting `task` now, by the system clock (see `start_task_at`).
    pub fn start_task(&self, task: &Task) -> (run: TaskRun)
        ensures
            exists|now: Timestamp| now.nanos < crate::clock::NANOS_PER_SEC && #[trigger] is_start_run(run@, task@, task.id, now),
    {
        let at = now();
        self.start_task_at(task, at)
    }

    /// Begins stopping `task` (see `is_stop_run`). The task itself is not changed.
    pub fn stop_task(&self, task: &Task) -> (run: TaskRun)
        ensures
            is_stop_run(run@, task@, task.id),
    {
        Self::begin_stop_of(task, task.id)
    }
}

impl TaskJob {
    /// Whether the job can take `reply` as the answer to what it last asked for.
    pub fn accepts(&self, reply: &OpReply) -> (ok: bool)
        ensures
            ok == job_accepts(self.phase, *reply),
    {
        match &self.phase {
            TaskPhase::Connect => match reply {
                OpReply::Created { .. } => false,
                _ => true,
            },
            TaskPhase::Docker { stage } => crate::container::fits_stage(stage, reply),
            TaskPhase::Done => false,
        }
    }

    /// Records on `task` what a finished container job came to, at `now` (see `settle`).
    fn settle_task(&self, task: &mut Task, result: &DockerResult, now: Timestamp)
        ensures
            final(task)@ == settle(self@, old(task)@, result@, now),
    {
        match self.flow {
            TaskFlow::Start => match &result.error {
                Some(message) => {
                    task.state = TaskState::Failed { error: message.clone(), finished_at: now };
                },
                None => {
                    task.container_id = Some(result.container_id.clone());
                    task.state = TaskState::Running { started_at: self.started_at };
                },
            },
            TaskFlow::Stop => {
                task.state = TaskState::Completed { finished_at: now };
            },
        }
    }

    /// Takes the job one step further with the engine's answer `reply`, at the time
    /// `now`, updating `task` as the job requires (see `task_step`).
    pub fn advance_at(&mut self, task: &mut Task, reply: OpReply, now: Timestamp) -> (action: TaskAction)
        requires
            job_accepts(old(self).phase, reply),
        ensures
            (final(self)@, final(task)@, action@) == task_step(old(self)@, old(task)@, reply, now),
    {
        let mut phase = TaskPhase::Done;
        std::mem::swap(&mut phase, &mut self.phase);
        match phase {
            TaskPhase::Connect => match reply {
                OpReply::Failed { message } => {
                    if self.flow == TaskFlow::Start {
                        task.state = TaskState::Failed { error: message.clone(), finished_at: now };
                    }
                    TaskAction::Finished { result: DockerResult::failure("docker_init", message) }
                },
                _ => {
                    if self.flow == TaskFlow::Start {
                        let (stage, op) = begin_run(&self.config);
                        self.phase = TaskPhase::Docker { stage };
                        TaskAction::Docker { op }
                    } else {
                        let (stage, op) = begin_stop(&self.container_id);
                        self.phase = TaskPhase::Docker { stage };
                        TaskAction::Docker { op }
                    }
                },
            },
            TaskPhase::Docker { stage } => {
                let (next, op) = advance_job(&self.config, stage, reply);
                match op {
                    DockerOp::Finished { result } => {
                        self.settle_task(task, &result, now);
                        TaskAction::Finished { result }
                    },
                    op => {
                        self.phase = TaskPhase::Docker { stage: next };
                        TaskAction::Docker { op }
                    },
                }
            },
            TaskPhase::Done => TaskAction::Finished { result: DockerResult::failure("", String::new()) },
        }
    }

    /// Takes the job one step further, at the time that the system clock reads
    /// (see `advance_at`).
    pub fn advance(&mut self, task: &mut Task, reply: OpReply) -> (action: TaskAction)
        requires
            job_accepts(old(self).phase, reply),
        ensures
            exists|now: Timestamp| now.nanos < crate::clock::NANOS_PER_SEC && #[trigger] task_step(old(self)@, old(task)@, reply, now) == (final(self)@, final(task)@, action@),
    {
        let at = now();
        self.advance_at(task, reply, at)
    }
}


/// The arguments of `valid_state_transition`, taken by view.
pub open spec fn source_state(src: Option<&TaskState>) -> Option<TaskStateView> {
    match src {
        Some(s) => Some(s@),
        None => None,
    }
}

/// What taking the next queued task does to the worker and what it begins (at `now`):
/// the task leaves the front of the queue and is stored under its identifier unless a
/// task is stored there already; the stored task's state must be able to move to the
/// queued task's state, or the run fails with `transition`; then a queued `Scheduled`
/// task starts the stored task, a queued `Completed` task stops it, and any other state
/// fails with `invalid_state`. An empty queue leaves the worker as it is, with the
/// success of `noop`.
pub open spec fn takes_next_task(old: WorkerView, new: WorkerView, run: TaskRunView, now: Timestamp) -> bool {
    if old.queue.len() == 0 {
        &&& new == old
        &&& run == TaskRunView::Finished { result: success_view("noop"@, Seq::empty()) }
    } else {
        let t = old.queue[0];
        let tasks = if old.tasks.contains_key(t.id) {
            old.tasks
        } else {
            old.tasks.insert(t.id, t)
        };
        let stored = tasks[t.id];
        &&& new == WorkerView { queue: old.queue.drop_first(), tasks, ..old }
        &&& if !transition_allowed(Some(stored.state), t.state) {
            run == TaskRunView::Finished {
                result: failure_view(
                    "transition"@,
                    "Invalid transition from "@ + state_text(stored.state) + " to "@ + state_text(t.state),
                ),
            }
        } else if t.state is Scheduled {
            is_start_run(run, stored, t.id, now)
        } else if t.state is Completed {
            is_stop_run(run, stored, t.id)
        } else {
            run == TaskRunView::Finished {
                result: failure_view("invalid_state"@, "We should not get here: invalid state "@ + state_text(t.state)),
            }
        }
    }
}

impl Worker {
    /// A new idle worker named `name`, with nothing queued or stored.
    pub fn new(name: String) -> (worker: Self)
        ensures
            worker@ == (WorkerView {
                name: name@,
                queue: Seq::empty(),
                tasks: Map::empty(),
                task_count: 0,
                status: WorkerStatus::Idle,
            }),
    {
        let worker = Worker {
            name,
            queue: VecDeque::new(),
            db: HashMap::new(),
            task_count: 0,
            status: WorkerStatus::Idle,
        };
        assert(worker@.queue =~= Seq::empty());
        assert(worker@.tasks =~= Map::empty());
        worker
    }

    /// The line that announces collecting the worker's statistics.
    pub fn collect_stats(&self) -> (line: String)
        ensures
            line@ == "I will collect stats"@,
    {
        String::from_str("I will collect stats")
    }

    /// Queues `task` after the tasks queued so far and counts it.
    pub fn add_task(&mut self, task: Task)
        requires
            old(self).task_count < i32::MAX,
        ensures
            final(self)@ == (WorkerView {
                queue: old(self)@.queue.push(task@),
                task_count: (old(self).task_count + 1) as i32,
                ..old(self)@
            }),
    {
        self.queue.push_back(task);
        self.task_count = self.task_count + 1;
        assert(self@.queue =~= old(self)@.queue.push(task@));
    }

    /// A copy of the task stored under `task_id`, if there is one.
    pub fn get_task(&self, task_id: u128) -> (found: Option<Task>)
        ensures
            match found {
                Some(t) => self@.tasks.contains_key(task_id) && t@ == self@.tasks[task_id],
                None => !self@.tasks.contains_key(task_id),
            },
    {
        match self.db.get(&task_id) {
            Some(t) => Some(t.clone()),
            None => None,
        }
    }

    /// Replaces the task stored under `task_id` by what `updater` makes of it; says
    /// whether there was such a task (if not, nothing changes).
    pub fn update_task_state<F: FnOnce(Task) -> Task>(&mut self, task_id: u128, updater: F) -> (found: bool)
        requires
            forall|t: Task| call_requires(updater, (t,)),
        ensures
            found == old(self)@.tasks.contains_key(task_id),
            !found ==> final(self)@ == old(self)@,
            found ==> exists|u: Task|
                #[trigger] call_ensures(updater, (old(self).db@[task_id],), u) && final(self)@ == (WorkerView {
                    tasks: old(self)@.tasks.insert(task_id, u@),
                    ..old(self)@
                }),
    {
        match self.db.remove(&task_id) {
            Some(t) => {
                let u = updater(t);
                proof {
                    assert(call_ensures(updater, (old(self).db@[task_id],), u));
                }
                self.db.insert(task_id, u);
                assert(self@.tasks =~= old(self)@.tasks.insert(task_id, u@));
                true
            },
            None => {
                assert(self.db@ =~= old(self).db@);
                false
            },
        }
    }

    /// The worker's name, queue length, number of stored tasks, task count and status.
    pub fn get_stats(&self) -> (stats: WorkerStats)
        ensures
            stats.name@ == self@.name,
            stats.queue_size == self@.queue.len(),
            stats.tasks_in_db == self@.tasks.len(),
            stats.task_count == self.task_count,
            stats.status == self.status,
    {
        assert(self@.tasks.dom() =~= self.db@.dom());
        WorkerStats {
            name: self.name.clone(),
            queue_size: self.queue.len(),
            tasks_in_db: self.db.len(),
            task_count: self.task_count,
            status: self.status,
        }
    }

    /// Whether a task may move from `src` (no state: a new task) to `dst`
    /// (see `transition_allowed`).
    pub fn valid_state_transition(src: Option<&TaskState>, dst: &TaskState) -> (ok: bool)
        ensures
            ok == transition_allowed(source_state(src), dst@),
    {
        match (src, dst) {
            (None, TaskState::Pending) => true,
            (Some(TaskState::Pending), TaskState::Scheduled) => true,
            (Some(TaskState::Pending), TaskState::Failed { .. }) => true,
            (Some(TaskState::Scheduled), TaskState::Running { .. }) => true,
            (Some(TaskState::Scheduled), TaskState::Failed { .. }) => true,
            (Some(TaskState::Running { .. }), TaskState::Completed { .. }) => true,
            (Some(TaskState::Running { .. }), TaskState::Failed { .. }) => true,
            _ => false,
        }
    }
}


impl Worker {
    /// Takes the next queued task and begins the work it asks for, at `now`
    /// (see `takes_next_task`).
    pub fn run_task_at(&mut self, now: Timestamp) -> (run: TaskRun)
        ensures
            takes_next_task(old(self)@, final(self)@, run@, now),
    {
        let popped = self.queue.pop_front();
        match popped {
            None => {
                assert(self@.queue =~= old(self)@.queue);
                proof {
                    reveal_strlit("");
                    assert(""@ =~= Seq::<char>::empty());
                }
                TaskRun::Finished { result: DockerResult::success("noop", "") }
            },
            Some(queued) => {
                let ghost t = queued@;
                assert(t == old(self)@.queue[0]);
                let id = queued.id;
                let dst = queued.state.clone();
                assert(self@.queue =~= old(self)@.queue.drop_first());
                if !self.db.contains_key(&id) {
                    self.db.insert(id, queued);
                    assert(self@.tasks =~= old(self)@.tasks.insert(id, t));
                } else {
                    assert(self@.tasks =~= old(self)@.tasks);
                }
                let stored = self.db.get(&id).unwrap();
                assert(stored@ == self@.tasks[id]);
                assert(self@ == (WorkerView { queue: old(self)@.queue.drop_first(), tasks: self@.tasks, ..old(self)@ }));
                if !Self::valid_state_transition(Some(&stored.state), &dst) {
                    let msg = String::from_str("Invalid transition from ").concat(
                        stored.state.debug_text().as_str(),
                    ).concat(" to ").concat(dst.debug_text().as_str());
                    return TaskRun::Finished { result: DockerResult::failure("transition", msg) };
                }
                match dst {
                    TaskState::Scheduled => Self::begin_start(stored, id, now),
                    TaskState::Completed { .. } => Self::begin_stop_of(stored, id),
                    _ => {
                        let msg = String::from_str("We should not get here: invalid state ").concat(
                            dst.debug_text().as_str(),
                        );
                        TaskRun::Finished { result: DockerResult::failure("invalid_state", msg) }
                    },
                }
            },
        }
    }

    /// Takes the next queued task and begins its work, at the time that the system clock
    /// reads (see `run_task_at`).
    pub fn run_task(&mut self) -> (run: TaskRun)
        ensures
            exists|now: Timestamp| now.nanos < crate::clock::NANOS_PER_SEC && #[trigger] takes_next_task(old(self)@, final(self)@, run@, now),
    {
        let at = now();
        self.run_task_at(at)
    }

    /// Takes the job `job`, on the task stored under its identifier, one step further
    /// with the engine's answer `reply`, at the time `now` (see `task_step`); the other
    /// stored tasks and the queue are left as they are.
    pub fn advance_task_at(&mut self, job: &mut TaskJob, reply: OpReply, now: Timestamp) -> (action: TaskAction)
        requires
            old(self)@.tasks.contains_key(old(job).task_id),
            job_accepts(old(job).phase, reply),
        ensures
            ({
                let (j, t, a) = task_step(old(job)@, old(self)@.tasks[old(job).task_id], reply, now);
                &&& final(job)@ == j
                &&& action@ == a
                &&& final(self)@ == (WorkerView { tasks: old(self)@.tasks.insert(old(job).task_id, t), ..old(self)@ })
            }),
    {
        let id = job.task_id;
        let mut task = self.db.remove(&id).unwrap();
        let action = job.advance_at(&mut task, reply, now);
        let ghost t = task@;
        self.db.insert(id, task);
        assert(self@.tasks =~= old(self)@.tasks.insert(id, t));
        action
    }

    /// Takes the job on its stored task one step further, at the time that the system
    /// clock reads (see `advance_task_at`).
    pub fn advance_task(&mut self, job: &mut TaskJob, reply: OpReply) -> (action: TaskAction)
        requires
            old(self)@.tasks.contains_key(old(job).task_id),
            job_accepts(old(job).phase, reply),
        ensures
            exists|now: Timestamp| {
                let (j, t, a) = #[trigger] task_step(old(job)@, old(self)@.tasks[old(job).task_id], reply, now);
                &&& now.nanos < crate::clock::NANOS_PER_SEC
                &&& final(job)@ == j
                &&& action@ == a
                &&& final(self)@ == (WorkerView { tasks: old(self)@.tasks.insert(old(job).task_id, t), ..old(self)@ })
            },
    {
        let at = now();
        self.advance_task_at(job, reply, at)
    }
}

/// Where a task job leaves its task, and the result it finishes with, when the engine
/// answers with `replies` at the time `now` (no result if the answers run out first).
pub open spec fn task_job_end(job: TaskJobView, task: TaskView, replies: Seq<OpReply>, now: Timestamp) -> (TaskView, Option<DockerResultView>)
    decreases replies.len(),
{
    if replies.len() == 0 {
        (task, None)
    } else {
        let (j, t, a) = task_step(job, task, replies[0], now);
        match a {
            TaskActionView::Finished { result } => (t, Some(result)),
            _ => task_job_end(j, t, replies.drop_first(), now),
        }
    }
}

/// A task that the queue holds stays behind the tasks queued before it: taking the
/// next task from a non-empty queue, after `t` was added, takes the first of the earlier
/// tasks and leaves `t` last.
pub proof fn lemma_queue_is_fifo(w: WorkerView, t: TaskView, after: WorkerView, run: TaskRunView, now: Timestamp)
    requires
        w.queue.len() > 0,
        takes_next_task(WorkerView { queue: w.queue.push(t), ..w }, after, run, now),
    ensures
        after.queue == w.queue.drop_first().push(t),
        after.tasks.contains_key(w.queue[0].id),
{
    assert(w.queue.push(t)[0] == w.queue[0]);
    assert(w.queue.push(t).drop_first() =~= w.queue.drop_first().push(t));
}

/// Starting a task ends, after at most five engine answers, with the task running since
/// the job began on the container that was created, exactly when the connection, the
/// pull, the create and the start all go through; otherwise the task is marked failed
/// at `now` with the message of the first step that failed.
pub proof fn lemma_task_start_outcome(
    job: TaskJobView,
    task: TaskView,
    connect: OpReply,
    pull: OpReply,
    create: OpReply,
    start: OpReply,
    logs: OpReply,
    now: Timestamp,
)
    requires
        job.flow == TaskFlow::Start,
        job.phase == TaskPhase::Connect,
        connect is Done || connect is Failed,
        pull is Done || pull is Failed,
        create is Created || create is Failed,
        start is Done || start is Failed,
    ensures
        task_job_end(job, task, seq![connect, pull, create, start, logs], now) == (match connect {
            OpReply::Failed { message } => (
                TaskView { state: TaskStateView::Failed { error: message@, finished_at: now }, ..task },
                Some(failure_view("docker_init"@, message@)),
            ),
            _ => (
                settle(job, task, crate::container::run_outcome(pull, create, start), now),
                Some(crate::container::run_outcome(pull, create, start)),
            ),
        }),
        task_job_end(job, task, seq![connect, pull, create, start, logs], now).0.state is Running
            <==> (connect is Done && pull is Done && create is Created && start is Done),
        ({
            let (t, r) = task_job_end(job, task, seq![connect, pull, create, start, logs], now);
            &&& t == TaskView { state: t.state, container_id: t.container_id, ..task }
            &&& r is Some
            &&& connect is Failed ==> {
                &&& t.state == TaskStateView::Failed { error: connect->message@, finished_at: now }
                &&& t.container_id == task.container_id
                &&& r->0.action == "docker_init"@
                &&& r->0.error == Some(connect->message@)
            }
            &&& connect is Done && pull is Failed ==> {
                &&& t.state == TaskStateView::Failed { error: pull->message@, finished_at: now }
                &&& t.container_id == task.container_id
                &&& r->0.action == "pull"@
                &&& r->0.error == Some(pull->message@)
            }
            &&& connect is Done && pull is Done && create is Failed ==> {
                &&& t.state == TaskStateView::Failed { error: create->message@, finished_at: now }
                &&& t.container_id == task.container_id
                &&& r->0.action == "create"@
                &&& r->0.error == Some(create->message@)
            }
            &&& connect is Done && pull is Done && create is Created && start is Failed ==> {
                &&& t.state == TaskStateView::Failed { error: start->message@, finished_at: now }
                &&& t.container_id == task.container_id
                &&& r->0.action == "start"@
                &&& r->0.error == Some(start->message@)
            }
            &&& connect is Done && pull is Done && create is Created && start is Done ==> {
                &&& t.state == TaskStateView::Running { started_at: job.started_at }
                &&& t.container_id == Some(create->id@)
                &&& r->0.error is None
                &&& r->0.action == "start"@
                &&& r->0.container_id == create->id@
            }
        }),
{
    let rs = seq![connect, pull, create, start, logs];
    assert(rs.drop_first() =~= seq![pull, create, start, logs]);
    assert(rs.drop_first().drop_first() =~= seq![create, start, logs]);
    assert(rs.drop_first().drop_first().drop_first() =~= seq![start, logs]);
    assert(rs.drop_first().drop_first().drop_first().drop_first() =~= seq![logs]);
    reveal_with_fuel(task_job_end, 6);
}

/// Stopping a task ends, after at most three engine answers, with the task completed at
/// `now` whenever the connection goes through, whatever the stop and the removal came to;
/// a failed connection leaves the task as it was.
pub proof fn lemma_task_stop_outcome(
    job: TaskJobView,
    task: TaskView,
    connect: OpReply,
    stop: OpReply,
    remove: OpReply,
    now: Timestamp,
)
    requires
        job.flow == TaskFlow::Stop,
        job.phase == TaskPhase::Connect,
        connect is Done || connect is Failed,
        stop is Done || stop is Failed,
        remove is Done || remove is Failed,
    ensures
        task_job_end(job, task, seq![connect, stop, remove], now) == (match connect {
            OpReply::Failed { message } => (task, Some(failure_view("docker_init"@, message@))),
            _ => (
                TaskView { state: TaskStateView::Completed { finished_at: now }, ..task },
                Some(crate::container::stop_outcome(job.container_id@, stop, remove)),
            ),
        }),
        ({
            let (t, r) = task_job_end(job, task, seq![connect, stop, remove], now);
            &&& connect is Failed ==> t == task && r == Some(failure_view("docker_init"@, connect->message@))
            &&& connect is Done ==> t == TaskView { state: TaskStateView::Completed { finished_at: now }, ..task }
            &&& connect is Done && stop is Failed ==> r == Some(failure_view("stop"@, stop->message@))
            &&& connect is Done && stop is Done && remove is Failed ==> r == Some(failure_view("remove"@, remove->message@))
            &&& connect is Done && stop is Done && remove is Done ==> r == Some(success_view("stop"@, job.container_id@))
        }),
{
    let rs = seq![connect, stop, remove];
    assert(rs.drop_first() =~= seq![stop, remove]);
    assert(rs.drop_first().drop_first() =~= seq![remove]);
    reveal_with_fuel(task_job_end, 4);
}

/// The worker starts only a task that it stores as pending and stops only a task that it
/// stores as running with a container, and the job it begins is for the task it took.
pub proof fn lemma_jobs_follow_stored_state(old: WorkerView, new: WorkerView, run: TaskRunView, now: Timestamp)
    requires
        takes_next_task(old, new, run, now),
        run is Job,
    ensures
        old.queue.len() > 0,
        new.tasks.contains_key(old.queue[0].id),
        match run {
            TaskRunView::Job { job, action } => {
                let stored = new.tasks[old.queue[0].id];
                &&& job.task_id == old.queue[0].id
                &&& job.flow == TaskFlow::Start ==> stored.state is Pending
                &&& job.flow == TaskFlow::Stop ==> stored.state is Running && stored.container_id is Some
            },
            _ => false,
        },
{
}

/// Taking the next task begins the same work that starting or stopping the stored task
/// directly begins: when the queued task may move on from the stored task's state, a
/// queued `Scheduled` task begins exactly the start job of the stored task (the one
/// that `start_task_at` begins on it, for the key it is stored under) and a queued
/// `Completed` task exactly its stop (the one that `stop_task` begins on it), reading the stored task's image,
/// environment, limits and container, not the queued task's. The stored task is the one
/// that was stored already, or else the queued task itself.
pub proof fn lemma_run_task_begins_stored_work(old: WorkerView, new: WorkerView, run: TaskRunView, now: Timestamp)
    requires
        takes_next_task(old, new, run, now),
        old.queue.len() > 0,
    ensures
        ({
            let t = old.queue[0];
            let stored = new.tasks[t.id];
            &&& stored == (if old.tasks.contains_key(t.id) { old.tasks[t.id] } else { t })
            &&& transition_allowed(Some(stored.state), t.state) && t.state is Scheduled
                ==> is_start_run(run, stored, t.id, now)
            &&& transition_allowed(Some(stored.state), t.state) && t.state is Completed
                ==> is_stop_run(run, stored, t.id)
        }),
{
}

/// A start job connects with a configuration made from the task it starts: the task's
/// image under the container name `task-` and the task's identifier, with the task's
/// environment, CPU share and memory limit; no command, no exposed port, output
/// attached, the default disk limit and no restarts. A stop connects with the task's
/// image under the same name and the defaults otherwise.
pub proof fn lemma_job_configs_come_from_the_task(t: TaskView)
    ensures
        start_config(t).image == t.image,
        start_config(t).name == Some("task-"@ + id_text(t.id)),
        start_config(t).env == t.env_vars,
        start_config(t).nano_cpus == t.nano_cpus,
        start_config(t).memory == t.memory,
        start_config(t).cmd.len() == 0,
        start_config(t).exposed_ports is None,
        start_config(t).restart_policy == "no"@,
        start_config(t).disk == crate::container::DEFAULT_DISK,
        !start_config(t).attach_stdin && start_config(t).attach_stdout && start_config(t).attach_stderr,
        stop_config(t).image == t.image,
        stop_config(t).name == Some("task-"@ + id_text(t.id)),
        stop_config(t).env.len() == 0,
        stop_config(t).nano_cpus == crate::container::DEFAULT_NANO_CPUS,
        stop_config(t).memory == crate::container::DEFAULT_MEMORY,
{
}

/// Beginning a start records the instant it began with and the task's start
/// configuration, and asks first for a connection with that configuration; beginning
/// a stop of a task with a container keeps that container and connects first too.
pub proof fn lemma_begun_jobs(run: TaskRunView, task: TaskView, key: u128, now: Timestamp)
    ensures
        is_start_run(run, task, key, now) ==> match run {
            TaskRunView::Job { job, action } => {
                &&& job.started_at == now
                &&& job.task_id == key
                &&& job.flow == TaskFlow::Start
                &&& job.phase == TaskPhase::Connect
                &&& job.config == start_config(task)
                &&& action == TaskActionView::Connect { config: start_config(task) }
            },
            _ => false,
        },
        is_stop_run(run, task, key) && task.container_id is Some ==> match run {
            TaskRunView::Job { job, action } => {
                &&& job.container_id@ == task.container_id->0
                &&& job.task_id == key
                &&& job.flow == TaskFlow::Stop
                &&& job.phase == TaskPhase::Connect
                &&& action == TaskActionView::Connect { config: stop_config(task) }
            },
            _ => false,
        },
        is_stop_run(run, task, key) && task.container_id is None ==> match run {
            TaskRunView::Finished { result } => {
                &&& result.action == "no_container"@
                &&& result.error == Some("Task "@ + id_text(task.id) + " has no container ID"@)
            },
            _ => false,
        },
{
}

} // verus!
