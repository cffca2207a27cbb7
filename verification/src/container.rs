use vstd::prelude::*;
use crate::text::{copy_texts, same_text};

verus! {

/// Billionths of a core that a container gets unless told otherwise (half a core).
pub const DEFAULT_NANO_CPUS: i64 = 500_000_000;

/// Memory limit in bytes unless told otherwise (512 MiB).
pub const DEFAULT_MEMORY: i64 = 536_870_912;

/// Disk limit in bytes unless told otherwise (10 GiB).
pub const DEFAULT_DISK: i64 = 10_737_418_240;

/// How a container is to be created and run. `nano_cpus` counts billionths of a core.
#[derive(Debug)]
pub struct ContainerConfig {
    pub name: Option<String>,
    pub attach_stdin: bool,
    pub attach_stdout: bool,
    pub attach_stderr: bool,
    pub exposed_ports: Option<Vec<String>>,
    pub cmd: Vec<String>,
    pub image: String,
    pub nano_cpus: i64,
    pub memory: i64,
    pub disk: i64,
    pub env: Vec<String>,
    pub restart_policy: String,
}

/// A container configuration with every text taken as a sequence of characters.
pub struct ConfigView {
    pub name: Option<Seq<char>>,
    pub attach_stdin: bool,
    pub attach_stdout: bool,
    pub attach_stderr: bool,
    pub exposed_ports: Option<Seq<Seq<char>>>,
    pub cmd: Seq<Seq<char>>,
    pub image: Seq<char>,
    pub nano_cpus: i64,
    pub memory: i64,
    pub disk: i64,
    pub env: Seq<Seq<char>>,
    pub restart_policy: Seq<char>,
}

/// The characters of each string of a list.
pub open spec fn texts(v: Seq<String>) -> Seq<Seq<char>> {
    v.map_values(|s: String| s@)
}

/// The characters of an optional string.
pub open spec fn opt_text(o: Option<String>) -> Option<Seq<char>> {
    match o {
        Some(s) => Some(s@),
        None => None,
    }
}

/// The characters of each string of an optional list.
pub open spec fn opt_texts(o: Option<Vec<String>>) -> Option<Seq<Seq<char>>> {
    match o {
        Some(v) => Some(texts(v@)),
        None => None,
    }
}

impl View for ContainerConfig {
    type V = ConfigView;

    open spec fn view(&self) -> ConfigView {
        ConfigView {
            name: opt_text(self.name),
            attach_stdin: self.attach_stdin,
            attach_stdout: self.attach_stdout,
            attach_stderr: self.attach_stderr,
            exposed_ports: opt_texts(self.exposed_ports),
            cmd: texts(self.cmd@),
            image: self.image@,
            nano_cpus: self.nano_cpus,
            memory: self.memory,
            disk: self.disk,
            env: texts(self.env@),
            restart_policy: self.restart_policy@,
        }
    }
}

/// The configuration that `default` gives, but with the given name and image.
pub open spec fn named_config(name: Option<Seq<char>>, image: Seq<char>) -> ConfigView {
    ConfigView {
        name: name,
        attach_stdin: false,
        attach_stdout: true,
        attach_stderr: true,
        exposed_ports: None,
        cmd: Seq::empty(),
        image: image,
        nano_cpus: DEFAULT_NANO_CPUS,
        memory: DEFAULT_MEMORY,
        disk: DEFAULT_DISK,
        env: Seq::empty(),
        restart_policy: "no"@,
    }
}

/// The exposed ports after `port` is added to `ports`.
pub open spec fn ports_with(ports: Option<Seq<Seq<char>>>, port: Seq<char>) -> Option<Seq<Seq<char>>> {
    match ports {
        Some(p) => Some(p.push(port)),
        None => Some(seq![port]),
    }
}

impl Clone for ContainerConfig {
    fn clone(&self) -> (copy: Self)
        ensures
            copy@ == self@,
    {
        let name = match &self.name {
            Some(n) => Some(n.clone()),
            None => None,
        };
        ContainerConfig {
            name,
            attach_stdin: self.attach_stdin,
            attach_stdout: self.attach_stdout,
            attach_stderr: self.attach_stderr,
            exposed_ports: copy_texts_opt(&self.exposed_ports),
            cmd: copy_texts(&self.cmd),
            image: self.image.clone(),
            nano_cpus: self.nano_cpus,
            memory: self.memory,
            disk: self.disk,
            env: copy_texts(&self.env),
            restart_policy: self.restart_policy.clone(),
        }
    }
}

impl Default for ContainerConfig {
    /// No name, no image, half a core, 512 MiB of memory, 10 GiB of disk, output
    /// attached, no ports, command or environment, and no restarts.
    fn default() -> (config: Self)
        ensures
            config@ == named_config(None, Seq::empty()),
    {
        let config = ContainerConfig {
            name: None,
            attach_stdin: false,
            attach_stdout: true,
            attach_stderr: true,
            exposed_ports: None,
            cmd: Vec::new(),
            image: String::new(),
            nano_cpus: DEFAULT_NANO_CPUS,
            memory: DEFAULT_MEMORY,
            disk: DEFAULT_DISK,
            env: Vec::new(),
            restart_policy: String::from_str("no"),
        };
        assert(texts(config.cmd@) =~= Seq::empty());
        assert(texts(config.env@) =~= Seq::empty());
        config
    }
}

impl ContainerConfig {
    /// The default configuration for `image`, under the container name `name`.
    pub fn new(image: String, name: String) -> (config: Self)
        ensures
            config@ == named_config(Some(name@), image@),
    {
        let base = ContainerConfig::default();
        ContainerConfig { image, name: Some(name), ..base }
    }

    /// The same configuration with the environment `env` (`KEY=VALUE` entries).
    pub fn with_env(self, env: Vec<String>) -> (config: Self)
        ensures
            config@ == (ConfigView { env: texts(env@), ..self@ }),
    {
        ContainerConfig { env, ..self }
    }

    /// The same configuration with the command `cmd`.
    pub fn with_cmd(self, cmd: Vec<String>) -> (config: Self)
        ensures
            config@ == (ConfigView { cmd: texts(cmd@), ..self@ }),
    {
        ContainerConfig { cmd, ..self }
    }

    /// The same configuration with the CPU share `nano_cpus` and the memory limit `memory`.
    pub fn with_resources(self, nano_cpus: i64, memory: i64) -> (config: Self)
        ensures
            config@ == (ConfigView { nano_cpus, memory, ..self@ }),
    {
        ContainerConfig { nano_cpus, memory, ..self }
    }

    /// The same configuration with the restart policy `policy`.
    pub fn with_restart_policy(self, policy: String) -> (config: Self)
        ensures
            config@ == (ConfigView { restart_policy: policy@, ..self@ }),
    {
        ContainerConfig { restart_policy: policy, ..self }
    }

    /// The same configuration with `port` added after the ports exposed so far.
    pub fn with_exposed_port(self, port: &str) -> (config: Self)
        ensures
            config@ == (ConfigView { exposed_ports: ports_with(self@.exposed_ports, port@), ..self@ }),
    {
        let added = String::from_str(port);
        let ports = match self.exposed_ports {
            Some(mut p) => {
                let ghost before = p@;
                p.push(added);
                assert(texts(p@) =~= texts(before).push(port@));
                p
            },
            None => {
                let mut p: Vec<String> = Vec::new();
                p.push(added);
                assert(texts(p@) =~= seq![port@]);
                p
            },
        };
        ContainerConfig { exposed_ports: Some(ports), ..self }
    }
}


/// What a Docker operation came to: `error` holds the failure's message, if any.
#[derive(Debug)]
pub struct DockerResult {
    pub error: Option<String>,
    pub action: String,
    pub container_id: String,
    pub result: String,
}

/// A Docker result with its texts as sequences of characters.
pub struct DockerResultView {
    pub error: Option<Seq<char>>,
    pub action: Seq<char>,
    pub container_id: Seq<char>,
    pub result: Seq<char>,
}

impl View for DockerResult {
    type V = DockerResultView;

    open spec fn view(&self) -> DockerResultView {
        DockerResultView {
            error: opt_text(self.error),
            action: self.action@,
            container_id: self.container_id@,
            result: self.result@,
        }
    }
}

/// The result of `action` succeeding on the container `container_id`.
pub open spec fn success_view(action: Seq<char>, container_id: Seq<char>) -> DockerResultView {
    DockerResultView { error: None, action, container_id, result: "success"@ }
}

/// The result of `action` failing with the message `error`.
pub open spec fn failure_view(action: Seq<char>, error: Seq<char>) -> DockerResultView {
    DockerResultView { error: Some(error), action, container_id: Seq::empty(), result: "failure"@ }
}

impl DockerResult {
    /// `action` succeeded on the container `container_id`.
    pub fn success(action: &str, container_id: &str) -> (r: Self)
        ensures
            r@ == success_view(action@, container_id@),
    {
        DockerResult {
            error: None,
            action: String::from_str(action),
            container_id: String::from_str(container_id),
            result: String::from_str("success"),
        }
    }

    /// `action` failed with the message `error`; no container is named.
    pub fn failure(action: &str, error: String) -> (r: Self)
        ensures
            r@ == failure_view(action@, error@),
    {
        DockerResult {
            error: Some(error),
            action: String::from_str(action),
            container_id: String::new(),
            result: String::from_str("failure"),
        }
    }

    /// Whether the operation succeeded, that is, carries no error.
    pub fn is_success(&self) -> (ok: bool)
        ensures
            ok == (self@.error is None),
    {
        self.error.is_none()
    }
}

/// The restart policies that a created container can get.
#[derive(Clone, Copy, Debug, PartialEq, Eq, Structural)]
pub enum RestartPolicyName {
    No,
    Always,
    OnFailure,
    UnlessStopped,
}

/// The policy that a configuration's restart-policy text names: `always`, `on-failure`
/// and `unless-stopped` name theirs, and any other text means no restarts.
pub open spec fn policy_named(text: Seq<char>) -> RestartPolicyName {
    if text == "always"@ {
        RestartPolicyName::Always
    } else if text == "on-failure"@ {
        RestartPolicyName::OnFailure
    } else if text == "unless-stopped"@ {
        RestartPolicyName::UnlessStopped
    } else {
        RestartPolicyName::No
    }
}

/// The restart policy that the text `text` names.
pub fn restart_policy_named(text: &str) -> (policy: RestartPolicyName)
    ensures
        policy == policy_named(text@),
{
    if same_text(text, "always") {
        RestartPolicyName::Always
    } else if same_text(text, "on-failure") {
        RestartPolicyName::OnFailure
    } else if same_text(text, "unless-stopped") {
        RestartPolicyName::UnlessStopped
    } else {
        RestartPolicyName::No
    }
}

/// What the Docker engine is asked to create: the container's name, its image, command
/// and environment (left out when empty), ports, and the host limits.
#[derive(Debug)]
pub struct CreateSpec {
    pub name: Option<String>,
    pub image: String,
    pub cmd: Option<Vec<String>>,
    pub env: Option<Vec<String>>,
    pub tty: bool,
    pub exposed_ports: Option<Vec<String>>,
    pub restart_policy: RestartPolicyName,
    pub maximum_retry_count: Option<i64>,
    pub memory: i64,
    pub nano_cpus: i64,
    pub publish_all_ports: bool,
    pub platform: String,
}

/// A create request with its texts as sequences of characters.
pub struct CreateSpecView {
    pub name: Option<Seq<char>>,
    pub image: Seq<char>,
    pub cmd: Option<Seq<Seq<char>>>,
    pub env: Option<Seq<Seq<char>>>,
    pub tty: bool,
    pub exposed_ports: Option<Seq<Seq<char>>>,
    pub restart_policy: RestartPolicyName,
    pub maximum_retry_count: Option<i64>,
    pub memory: i64,
    pub nano_cpus: i64,
    pub publish_all_ports: bool,
    pub platform: Seq<char>,
}

impl View for CreateSpec {
    type V = CreateSpecView;

    open spec fn view(&self) -> CreateSpecView {
        CreateSpecView {
            name: opt_text(self.name),
            image: self.image@,
            cmd: opt_texts(self.cmd),
            env: opt_texts(self.env),
            tty: self.tty,
            exposed_ports: opt_texts(self.exposed_ports),
            restart_policy: self.restart_policy,
            maximum_retry_count: self.maximum_retry_count,
            memory: self.memory,
            nano_cpus: self.nano_cpus,
            publish_all_ports: self.publish_all_ports,
            platform: self.platform@,
        }
    }
}

/// A list, or nothing where it is empty.
pub open spec fn unless_empty(v: Seq<Seq<char>>) -> Option<Seq<Seq<char>>> {
    if v.len() == 0 {
        None
    } else {
        Some(v)
    }
}

/// The create request for a configuration: no terminal, every exposed port published,
/// the restart policy with no retry limit, and no platform asked for.
pub open spec fn create_spec_for(c: ConfigView) -> CreateSpecView {
    CreateSpecView {
        name: c.name,
        image: c.image,
        cmd: unless_empty(c.cmd),
        env: unless_empty(c.env),
        tty: false,
        exposed_ports: c.exposed_ports,
        restart_policy: policy_named(c.restart_policy),
        maximum_retry_count: None,
        memory: c.memory,
        nano_cpus: c.nano_cpus,
        publish_all_ports: true,
        platform: Seq::empty(),
    }
}

/// A copy of an optional list of strings.
pub fn copy_texts_opt(o: &Option<Vec<String>>) -> (copy: Option<Vec<String>>)
    ensures
        opt_texts(copy) == opt_texts(*o),
{
    match o {
        Some(v) => Some(copy_texts(v)),
        None => None,
    }
}

/// A list, or nothing where it is empty.
fn texts_unless_empty(v: &Vec<String>) -> (o: Option<Vec<String>>)
    ensures
        opt_texts(o) == unless_empty(texts(v@)),
{
    if v.len() == 0 {
        None
    } else {
        Some(copy_texts(v))
    }
}

impl ContainerConfig {
    /// The create request that this configuration asks for.
    pub fn create_spec(&self) -> (spec: CreateSpec)
        ensures
            spec@ == create_spec_for(self@),
            spec@.name == self@.name,
            spec@.image == self@.image,
            spec@.exposed_ports == self@.exposed_ports,
            spec@.memory == self.memory,
            spec@.nano_cpus == self.nano_cpus,
            self@.cmd.len() > 0 ==> spec@.cmd == Some(self@.cmd),
            self@.cmd.len() == 0 ==> spec@.cmd is None,
            self@.env.len() > 0 ==> spec@.env == Some(self@.env),
            self@.env.len() == 0 ==> spec@.env is None,
    {
        let name = match &self.name {
            Some(n) => Some(n.clone()),
            None => None,
        };
        CreateSpec {
            name,
            image: self.image.clone(),
            cmd: texts_unless_empty(&self.cmd),
            env: texts_unless_empty(&self.env),
            tty: false,
            exposed_ports: copy_texts_opt(&self.exposed_ports),
            restart_policy: restart_policy_named(self.restart_policy.as_str()),
            maximum_retry_count: None,
            memory: self.memory,
            nano_cpus: self.nano_cpus,
            publish_all_ports: true,
            platform: String::new(),
        }
    }
}


/// Where a container job stands. A run job pulls the image, creates the container,
/// starts it and reads its logs; a stop job stops the container and removes it.
#[derive(Debug)]
pub enum JobStage {
    Pull,
    Create,
    Start { id: String },
    Logs { id: String },
    Stop { id: String },
    Remove { id: String },
    Done,
}

/// How the Docker engine answered the last operation.
#[derive(Debug)]
pub enum OpReply {
    /// The operation went through.
    Done,
    /// The container was created under `id`.
    Created { id: String },
    /// The operation failed with `message`.
    Failed { message: String },
}

/// Which answers an operation can get: a create is answered with an identifier or a
/// failure, any other operation with `Done` or a failure.
pub open spec fn reply_fits(stage: JobStage, reply: OpReply) -> bool {
    match stage {
        JobStage::Create => reply is Created || reply is Failed,
        JobStage::Done => false,
        _ => reply is Done || reply is Failed,
    }
}

/// Options of a stop request: the signal to send and the seconds to wait before the
/// container is killed (the engine's own choice where left out).
#[derive(Debug)]
pub struct StopOptions {
    pub signal: Option<String>,
    pub timeout_secs: Option<i32>,
}

/// Options of a stop request with its signal as a sequence of characters.
pub struct StopOptionsView {
    pub signal: Option<Seq<char>>,
    pub timeout_secs: Option<i32>,
}

impl View for StopOptions {
    type V = StopOptionsView;

    open spec fn view(&self) -> StopOptionsView {
        StopOptionsView { signal: opt_text(self.signal), timeout_secs: self.timeout_secs }
    }
}

/// The options a container is stopped with: the engine's defaults for both.
pub open spec fn stop_options() -> StopOptionsView {
    StopOptionsView { signal: None, timeout_secs: None }
}

/// Options of a removal: whether the container's volumes go too, whether a running
/// container is killed first, and whether only a link is removed.
#[derive(Clone, Copy, Debug, PartialEq, Eq, Structural)]
pub struct RemoveOptions {
    pub remove_volumes: bool,
    pub force: bool,
    pub link: bool,
}

/// The options a container is removed with: its volumes go too, nothing is forced,
/// and it is not a link that is removed.
pub open spec fn remove_options() -> RemoveOptions {
    RemoveOptions { remove_volumes: true, force: false, link: false }
}

/// What is asked of a container's logs: whether to follow them, which streams, whether
/// with timestamps, the time window (0 for no bound) and how many last lines (all where
/// `tail` is empty).
#[derive(Debug)]
pub struct LogsOptions {
    pub follow: bool,
    pub stdout: bool,
    pub stderr: bool,
    pub timestamps: bool,
    pub since: i32,
    pub until: i32,
    pub tail: String,
}

/// What is asked of the logs, with `tail` as a sequence of characters.
pub struct LogsOptionsView {
    pub follow: bool,
    pub stdout: bool,
    pub stderr: bool,
    pub timestamps: bool,
    pub since: i32,
    pub until: i32,
    pub tail: Seq<char>,
}

impl View for LogsOptions {
    type V = LogsOptionsView;

    open spec fn view(&self) -> LogsOptionsView {
        LogsOptionsView {
            follow: self.follow,
            stdout: self.stdout,
            stderr: self.stderr,
            timestamps: self.timestamps,
            since: self.since,
            until: self.until,
            tail: self.tail@,
        }
    }
}

/// The logs read after a start: everything written so far on both streams, without
/// timestamps, not followed.
pub open spec fn logs_options() -> LogsOptionsView {
    LogsOptionsView {
        follow: false,
        stdout: true,
        stderr: true,
        timestamps: false,
        since: 0,
        until: 0,
        tail: Seq::empty(),
    }
}

/// The options of a stop request (see `stop_options`).
pub fn default_stop_options() -> (o: StopOptions)
    ensures
        o@ == stop_options(),
{
    StopOptions { signal: None, timeout_secs: None }
}

/// The options of a removal (see `remove_options`).
pub fn removal_options() -> (o: RemoveOptions)
    ensures
        o == remove_options(),
{
    RemoveOptions { remove_volumes: true, force: false, link: false }
}

/// The options of reading the logs (see `logs_options`).
pub fn log_reading_options() -> (o: LogsOptions)
    ensures
        o@ == logs_options(),
{
    LogsOptions {
        follow: false,
        stdout: true,
        stderr: true,
        timestamps: false,
        since: 0,
        until: 0,
        tail: String::new(),
    }
}

/// Whether `reply` can answer what a job at `stage` last asked for (see `reply_fits`).
pub fn fits_stage(stage: &JobStage, reply: &OpReply) -> (ok: bool)
    ensures
        ok == reply_fits(*stage, *reply),
{
    match (stage, reply) {
        (JobStage::Create, OpReply::Done) => false,
        (JobStage::Create, _) => true,
        (JobStage::Done, _) => false,
        (_, OpReply::Created { .. }) => false,
        _ => true,
    }
}

/// The next thing to do with the Docker engine.
#[derive(Debug)]
pub enum DockerOp {
    PullImage { image: String },
    CreateContainer { spec: CreateSpec },
    StartContainer { id: String },
    FetchLogs { id: String, options: LogsOptions },
    StopContainer { id: String, options: StopOptions },
    RemoveContainer { id: String, options: RemoveOptions },
    /// The job is over, with this result.
    Finished { result: DockerResult },
}

/// A Docker operation with its texts as sequences of characters.
pub enum DockerOpView {
    PullImage { image: Seq<char> },
    CreateContainer { spec: CreateSpecView },
    StartContainer { id: Seq<char> },
    FetchLogs { id: Seq<char>, options: LogsOptionsView },
    StopContainer { id: Seq<char>, options: StopOptionsView },
    RemoveContainer { id: Seq<char>, options: RemoveOptions },
    Finished { result: DockerResultView },
}

impl View for DockerOp {
    type V = DockerOpView;

    open spec fn view(&self) -> DockerOpView {
        match self {
            DockerOp::PullImage { image } => DockerOpView::PullImage { image: image@ },
            DockerOp::CreateContainer { spec } => DockerOpView::CreateContainer { spec: spec@ },
            DockerOp::StartContainer { id } => DockerOpView::StartContainer { id: id@ },
            DockerOp::FetchLogs { id, options } => DockerOpView::FetchLogs { id: id@, options: options@ },
            DockerOp::StopContainer { id, options } => DockerOpView::StopContainer {
                id: id@,
                options: options@,
            },
            DockerOp::RemoveContainer { id, options } => DockerOpView::RemoveContainer {
                id: id@,
                options: *options,
            },
            DockerOp::Finished { result } => DockerOpView::Finished { result: result@ },
        }
    }
}

/// The step of a container job: where it goes and what it asks for next, given the
/// configuration it runs, where it stands and the engine's answer to the last operation.
/// A failed pull, create, start, stop or remove ends the job with a failure named after
/// that operation; reading the logs ends a run job with the success of `start`, whatever
/// the logs did; a removal ends a stop job with the success of `stop`.
pub open spec fn job_step(config: ConfigView, stage: JobStage, reply: OpReply) -> (JobStage, DockerOpView) {
    match (stage, reply) {
        (JobStage::Pull, OpReply::Failed { message }) => (
            JobStage::Done,
            DockerOpView::Finished { result: failure_view("pull"@, message@) },
        ),
        (JobStage::Pull, _) => (
            JobStage::Create,
            DockerOpView::CreateContainer { spec: create_spec_for(config) },
        ),
        (JobStage::Create, OpReply::Created { id }) => (
            JobStage::Start { id },
            DockerOpView::StartContainer { id: id@ },
        ),
        (JobStage::Create, OpReply::Failed { message }) => (
            JobStage::Done,
            DockerOpView::Finished { result: failure_view("create"@, message@) },
        ),
        (JobStage::Start { id }, OpReply::Failed { message }) => (
            JobStage::Done,
            DockerOpView::Finished { result: failure_view("start"@, message@) },
        ),
        (JobStage::Start { id }, _) => (
            JobStage::Logs { id },
            DockerOpView::FetchLogs { id: id@, options: logs_options() },
        ),
        (JobStage::Logs { id }, _) => (
            JobStage::Done,
            DockerOpView::Finished { result: success_view("start"@, id@) },
        ),
        (JobStage::Stop { id }, OpReply::Failed { message }) => (
            JobStage::Done,
            DockerOpView::Finished { result: failure_view("stop"@, message@) },
        ),
        (JobStage::Stop { id }, _) => (
            JobStage::Remove { id },
            DockerOpView::RemoveContainer { id: id@, options: remove_options() },
        ),
        (JobStage::Remove { id }, OpReply::Failed { message }) => (
            JobStage::Done,
            DockerOpView::Finished { result: failure_view("remove"@, message@) },
        ),
        (JobStage::Remove { id }, _) => (
            JobStage::Done,
            DockerOpView::Finished { result: success_view("stop"@, id@) },
        ),
        (stage, _) => (stage, DockerOpView::Finished { result: failure_view(Seq::empty(), Seq::empty()) }),
    }
}

/// The first step of running a container: pull its image.
pub fn begin_run(config: &ContainerConfig) -> (start: (JobStage, DockerOp))
    ensures
        start.0 == JobStage::Pull,
        start.1@ == (DockerOpView::PullImage { image: config@.image }),
{
    (JobStage::Pull, DockerOp::PullImage { image: config.image.clone() })
}

/// The first step of stopping the container `id`: stop it.
pub fn begin_stop(id: &String) -> (start: (JobStage, DockerOp))
    ensures
        start.0 == (JobStage::Stop { id: *id }),
        start.1@ == (DockerOpView::StopContainer { id: id@, options: stop_options() }),
{
    (JobStage::Stop { id: id.clone() }, DockerOp::StopContainer { id: id.clone(), options: default_stop_options() })
}

/// Takes a container job one step further (see `job_step`).
pub fn advance_job(config: &ContainerConfig, stage: JobStage, reply: OpReply) -> (next: (JobStage, DockerOp))
    requires
        reply_fits(stage, reply),
    ensures
        (next.0, next.1@) == job_step(config@, stage, reply),
{
    match (stage, reply) {
        (JobStage::Pull, OpReply::Failed { message }) => (
            JobStage::Done,
            DockerOp::Finished { result: DockerResult::failure("pull", message) },
        ),
        (JobStage::Pull, _) => (JobStage::Create, DockerOp::CreateContainer { spec: config.create_spec() }),
        (JobStage::Create, OpReply::Created { id }) => {
            let op = DockerOp::StartContainer { id: id.clone() };
            (JobStage::Start { id }, op)
        },
        (JobStage::Create, OpReply::Failed { message }) => (
            JobStage::Done,
            DockerOp::Finished { result: DockerResult::failure("create", message) },
        ),
        (JobStage::Start { id }, OpReply::Failed { message }) => (
            JobStage::Done,
            DockerOp::Finished { result: DockerResult::failure("start", message) },
        ),
        (JobStage::Start { id }, _) => {
            let op = DockerOp::FetchLogs { id: id.clone(), options: log_reading_options() };
            (JobStage::Logs { id }, op)
        },
        (JobStage::Logs { id }, _) => (
            JobStage::Done,
            DockerOp::Finished { result: DockerResult::success("start", id.as_str()) },
        ),
        (JobStage::Stop { id }, OpReply::Failed { message }) => (
            JobStage::Done,
            DockerOp::Finished { result: DockerResult::failure("stop", message) },
        ),
        (JobStage::Stop { id }, _) => {
            let op = DockerOp::RemoveContainer { id: id.clone(), options: removal_options() };
            (JobStage::Remove { id }, op)
        },
        (JobStage::Remove { id }, OpReply::Failed { message }) => (
            JobStage::Done,
            DockerOp::Finished { result: DockerResult::failure("remove", message) },
        ),
        (JobStage::Remove { id }, _) => (
            JobStage::Done,
            DockerOp::Finished { result: DockerResult::success("stop", id.as_str()) },
        ),
        (stage, _) => (
            stage,
            DockerOp::Finished { result: DockerResult::failure("", String::new()) },
        ),
    }
}


/// The result that a container job hands back after the engine answers with `replies`,
/// one answer per operation, or nothing if the answers run out before the job ends.
pub open spec fn job_result(config: ConfigView, stage: JobStage, replies: Seq<OpReply>) -> Option<DockerResultView>
    decreases replies.len(),
{
    if replies.len() == 0 {
        None
    } else {
        let (next, op) = job_step(config, stage, replies[0]);
        match op {
            DockerOpView::Finished { result } => Some(result),
            _ => job_result(config, next, replies.drop_first()),
        }
    }
}

/// What running a container comes to: the first of pull, create and start that fails
/// names the failure; if none fails, the run succeeds on the container that create made.
pub open spec fn run_outcome(pull: OpReply, create: OpReply, start: OpReply) -> DockerResultView {
    match (pull, create, start) {
        (OpReply::Failed { message }, _, _) => failure_view("pull"@, message@),
        (_, OpReply::Failed { message }, _) => failure_view("create"@, message@),
        (_, OpReply::Created { id }, OpReply::Failed { message }) => failure_view("start"@, message@),
        (_, OpReply::Created { id }, _) => success_view("start"@, id@),
        _ => failure_view(Seq::empty(), Seq::empty()),
    }
}

/// What stopping the container `id` comes to: a failed stop, else a failed removal,
/// else the success of `stop` on `id`.
pub open spec fn stop_outcome(id: Seq<char>, stop: OpReply, remove: OpReply) -> DockerResultView {
    match (stop, remove) {
        (OpReply::Failed { message }, _) => failure_view("stop"@, message@),
        (_, OpReply::Failed { message }) => failure_view("remove"@, message@),
        _ => success_view("stop"@, id),
    }
}

/// A run job ends within four answers, and it succeeds exactly when the pull, the create
/// and the start all go through, on the container that the create reported; what the
/// logs do never changes the outcome.
pub proof fn lemma_run_job_outcome(config: ConfigView, pull: OpReply, create: OpReply, start: OpReply, logs: OpReply)
    requires
        reply_fits(JobStage::Pull, pull),
        reply_fits(JobStage::Create, create),
        pull is Done || pull is Failed,
        start is Done || start is Failed,
    ensures
        job_result(config, JobStage::Pull, seq![pull, create, start, logs]) == Some(
            run_outcome(pull, create, start),
        ),
        run_outcome(pull, create, start).error is None <==> (pull is Done && create is Created
            && start is Done),
{
    let rs = seq![pull, create, start, logs];
    assert(rs.drop_first() =~= seq![create, start, logs]);
    assert(rs.drop_first().drop_first() =~= seq![start, logs]);
    assert(rs.drop_first().drop_first().drop_first() =~= seq![logs]);
    reveal_with_fuel(job_result, 5);
}

/// A stop job ends within two answers: it reports the failed stop, else the failed
/// removal, else the success of `stop` on the container it was given.
pub proof fn lemma_stop_job_outcome(config: ConfigView, id: String, stop: OpReply, remove: OpReply)
    requires
        stop is Done || stop is Failed,
        remove is Done || remove is Failed,
    ensures
        job_result(config, JobStage::Stop { id }, seq![stop, remove]) == Some(
            stop_outcome(id@, stop, remove),
        ),
{
    let rs = seq![stop, remove];
    assert(rs.drop_first() =~= seq![remove]);
    reveal_with_fuel(job_result, 3);
}

/// A success never carries an error and a failure always does, so `is_success` tells
/// the results of `success` and `failure` apart.
pub proof fn lemma_success_and_failure_differ(action: Seq<char>, container_id: Seq<char>, error: Seq<char>)
    ensures
        success_view(action, container_id).error is None,
        failure_view(action, error).error == Some(error),
        success_view(action, container_id) != failure_view(action, error),
{
}

/// One line of a container listing: the short form of the container's identifier, its
/// name, its status and its image.
#[derive(Debug)]
pub struct ContainerListing {
    pub short_id: String,
    pub name: String,
    pub status: String,
    pub image: String,
}

/// Characters of an identifier kept in its short form.
pub const SHORT_ID_LEN: usize = 12;

/// The short form of an identifier: its first twelve characters (all of it if shorter).
pub open spec fn short_id_of(id: Seq<char>) -> Seq<char> {
    if id.len() <= SHORT_ID_LEN {
        id
    } else {
        id.take(SHORT_ID_LEN as int)
    }
}

/// The name shown for a container: its first name without the leading `/` that the
/// engine puts before names, or nothing if it has no name.
pub open spec fn shown_name(names: Seq<Seq<char>>) -> Seq<char> {
    if names.len() == 0 {
        Seq::empty()
    } else if names[0].len() > 0 && names[0][0] == '/' {
        names[0].skip(1)
    } else {
        names[0]
    }
}

impl ContainerListing {
    /// The listing line of the container `id`, named `names`, in `status`, from `image`.
    pub fn new(id: &str, names: &Vec<String>, status: String, image: String) -> (line: Self)
        ensures
            line.short_id@ == short_id_of(id@),
            line.name@ == shown_name(texts(names@)),
            line.status == status,
            line.image == image,
    {
        let n = id.unicode_len();
        let short_id = if n <= SHORT_ID_LEN {
            String::from_str(id)
        } else {
            String::from_str(id.substring_char(0, SHORT_ID_LEN))
        };
        let name = if names.len() == 0 {
            String::new()
        } else {
            let first = names[0].as_str();
            let m = first.unicode_len();
            if m > 0 && first.get_char(0) == '/' {
                String::from_str(first.substring_char(1, m))
            } else {
                String::from_str(first)
            }
        };
        proof {
            if names@.len() > 0 {
                assert(texts(names@)[0] == names@[0]@);
            }
        }
        ContainerListing { short_id, name, status, image }
    }
}

/// A create request carries the configuration it is made from: the same name, image,
/// exposed ports, memory limit and CPU share; the command and the environment where
/// they are not empty (and nothing where they are); the restart policy that the
/// configuration's text names, with no retry limit; no terminal; every exposed port
/// published; no platform.
pub proof fn lemma_create_request_carries_config(c: ConfigView)
    ensures
        create_spec_for(c).name == c.name,
        create_spec_for(c).image == c.image,
        create_spec_for(c).exposed_ports == c.exposed_ports,
        create_spec_for(c).memory == c.memory,
        create_spec_for(c).nano_cpus == c.nano_cpus,
        c.cmd.len() > 0 ==> create_spec_for(c).cmd == Some(c.cmd),
        c.cmd.len() == 0 ==> create_spec_for(c).cmd is None,
        c.env.len() > 0 ==> create_spec_for(c).env == Some(c.env),
        c.env.len() == 0 ==> create_spec_for(c).env is None,
        c.restart_policy == "always"@ ==> create_spec_for(c).restart_policy == RestartPolicyName::Always,
        c.restart_policy == "on-failure"@ ==> create_spec_for(c).restart_policy == RestartPolicyName::OnFailure,
        c.restart_policy == "unless-stopped"@ ==> create_spec_for(c).restart_policy == RestartPolicyName::UnlessStopped,
        c.restart_policy != "always"@ && c.restart_policy != "on-failure"@ && c.restart_policy != "unless-stopped"@
            ==> create_spec_for(c).restart_policy == RestartPolicyName::No,
        create_spec_for(c).maximum_retry_count is None,
        !create_spec_for(c).tty,
        create_spec_for(c).publish_all_ports,
        create_spec_for(c).platform.len() == 0,
{
    reveal_strlit("always");
    reveal_strlit("on-failure");
    reveal_strlit("unless-stopped");
    assert("always"@.len() != "on-failure"@.len());
    assert("always"@.len() != "unless-stopped"@.len());
    assert("on-failure"@.len() != "unless-stopped"@.len());
}

/// A port exposed on a configuration is asked for when its container is created: after
/// `port` is added, the create request exposes the ports exposed before, then `port`.
pub proof fn lemma_exposed_port_reaches_request(c: ConfigView, port: Seq<char>)
    ensures
        ({
            let ports = create_spec_for(ConfigView { exposed_ports: ports_with(c.exposed_ports, port), ..c }).exposed_ports;
            &&& ports is Some
            &&& ports->0.len() > 0
            &&& ports->0.last() == port
            &&& ports->0.contains(port)
            &&& ports->0.drop_last() == (match c.exposed_ports {
                Some(p) => p,
                None => Seq::empty(),
            })
        }),
{
    let ports = create_spec_for(ConfigView { exposed_ports: ports_with(c.exposed_ports, port), ..c }).exposed_ports;
    assert(ports->0[ports->0.len() - 1] == port);
    match c.exposed_ports {
        Some(p) => {
            assert(p.push(port).drop_last() =~= p);
        },
        None => {
            assert(seq![port].drop_last() =~= Seq::<Seq<char>>::empty());
        },
    }
}

} // verus!
