//! The task supervisor: what the configuration asks to run, which tasks were
//! started, and the order in which the run loop waits for them.
use crate::database::DatabaseConfig;
use crate::web::WebConfig;
use crate::tasks::{Daemon, DaemonEvent, IRC, Postgres, TUI, WebUiRocket, daemon_reaction};
use rand::seq::SliceRandom;
use vstd::prelude::*;

verus! {

#[verifier::external_type_specification]
#[verifier::external_body]
#[verifier::reject_recursive_types(T)]
pub struct ExSegQueue<T>(crossbeam::queue::SegQueue<T>);

/// The queue of started tasks, by task number.
pub type TaskQueue = crossbeam::queue::SegQueue<u64>;

/// The task numbers that a task queue holds, the next to leave first.
pub uninterp spec fn queued_tasks(q: TaskQueue) -> Seq<u64>;

/// Relies on `crossbeam::queue::SegQueue::new`: a new queue is empty.
#[verifier::external_body]
fn queue_new() -> (q: TaskQueue)
    ensures
        queued_tasks(q).len() == 0,
{
    crossbeam::queue::SegQueue::new()
}

/// Relies on `crossbeam::queue::SegQueue::push`: the value joins at the back.
#[verifier::external_body]
fn queue_push(q: &mut TaskQueue, value: u64)
    ensures
        queued_tasks(*final(q)) == queued_tasks(*old(q)).push(value),
{
    q.push(value)
}

/// Relies on `crossbeam::queue::SegQueue::pop`: the value at the front leaves,
/// or `None` when the queue is empty.
#[verifier::external_body]
fn queue_pop(q: &mut TaskQueue) -> (r: Option<u64>)
    ensures
        queued_tasks(*old(q)).len() == 0 ==> r is None && queued_tasks(*final(q)) == queued_tasks(*old(q)),
        queued_tasks(*old(q)).len() > 0 ==> r == Some(queued_tasks(*old(q))[0])
            && queued_tasks(*final(q)) == queued_tasks(*old(q)).drop_first(),
{
    q.pop()
}

/// Relies on `crossbeam::queue::SegQueue::is_empty`: whether nothing is queued.
#[verifier::external_body]
fn queue_is_empty(q: &TaskQueue) -> (r: bool)
    ensures
        r == (queued_tasks(*q).len() == 0),
{
    q.is_empty()
}

/// Relies on `crossbeam::queue::SegQueue::len`: how many values are queued.
#[verifier::external_body]
fn queue_len(q: &TaskQueue) -> (r: usize)
    ensures
        r == queued_tasks(*q).len(),
{
    q.len()
}

/// Relies on `rand::seq::SliceRandom::choose_multiple` with `rand::thread_rng`:
/// `amount` characters of the ASCII `alphabet`, or all of them if it has fewer,
/// picked at random without repetition, in random order.
#[verifier::external_body]
fn choose_multiple_ascii(alphabet: &str, amount: usize) -> (r: String)
    requires
        forall|i: int| 0 <= i < alphabet@.len() ==> (alphabet@[i] as u32) < 128,
    ensures
        r@.len() == (if amount < alphabet@.len() { amount as int } else { alphabet@.len() as int }),
        forall|i: int| 0 <= i < r@.len() ==> alphabet@.contains(#[trigger] r@[i]),
{
    alphabet.as_bytes().choose_multiple(&mut rand::thread_rng(), amount).map(|b| char::from(*b)).collect()
}

/// The text with leading and trailing whitespace removed.
pub uninterp spec fn trimmed(s: Seq<char>) -> Seq<char>;

/// Relies on `str::trim`: the text without its leading and trailing whitespace.
#[verifier::external_body]
fn trim_text(s: &str) -> (r: &str)
    ensures
        r@ == trimmed(s@),
{
    s.trim()
}

/// The text in lower case.
pub uninterp spec fn lowercased(s: Seq<char>) -> Seq<char>;

/// Relies on `str::to_lowercase`: the text in lower case.
#[verifier::external_body]
fn lowercase_text(s: &str) -> (r: String)
    ensures
        r@ == lowercased(s@),
{
    s.to_lowercase()
}

/// What the system is run as.
#[derive(Debug, Clone, Copy, PartialEq, Eq, Structural)]
pub enum RunMode {
    Foreground,
    Daemon,
    TUI,
}

/// The run mode that a normalised (trimmed, lower-case) name stands for.
pub open spec fn run_mode_named(name: Seq<char>) -> Option<RunMode> {
    if name == "foreground"@ {
        Some(RunMode::Foreground)
    } else if name == "daemon"@ {
        Some(RunMode::Daemon)
    } else if name == "tui"@ {
        Some(RunMode::TUI)
    } else {
        None
    }
}

/// The message of a run mode that is not known.
pub const RUN_MODE_ERROR: &'static str = "unsupported run-mode, valid values:  Foreground, Daemon, TUI";

impl RunMode {
    /// The run mode of a normalised name.
    pub fn from_normalized(name: &str) -> (r: Option<RunMode>)
        ensures
            r == run_mode_named(name@),
    {
        let owned = name.to_owned();
        if owned == "foreground".to_owned() {
            Some(RunMode::Foreground)
        } else if owned == "daemon".to_owned() {
            Some(RunMode::Daemon)
        } else if owned == "tui".to_owned() {
            Some(RunMode::TUI)
        } else {
            None
        }
    }

    /// Reads a run mode, ignoring surrounding whitespace and case.
    pub fn parse(s: &str) -> (r: Result<RunMode, &'static str>)
        ensures
            run_mode_named(lowercased(trimmed(s@))) matches Some(m) ==> r == Ok::<RunMode, &'static str>(m),
            run_mode_named(lowercased(trimmed(s@))) is None ==> r == Err::<RunMode, &'static str>(RUN_MODE_ERROR),
    {
        let lowered = lowercase_text(trim_text(s));
        match RunMode::from_normalized(lowered.as_str()) {
            Some(m) => Ok(m),
            None => Err(RUN_MODE_ERROR),
        }
    }
}

impl std::str::FromStr for RunMode {
    type Err = &'static str;

    fn from_str(s: &str) -> Result<RunMode, &'static str> {
        RunMode::parse(s)
    }
}

/// The characters of generated passwords.
pub const PASSWORD_CHARS: &'static str = "abcdefghijklmnopqrstuvwxyzABCDEFGHIJKLMNOPQRSTUVWXYZ0123456789_";

/// Whether a character may stand in a generated password.
pub open spec fn is_password_char(c: char) -> bool {
    ('a' <= c && c <= 'z') || ('A' <= c && c <= 'Z') || ('0' <= c && c <= '9') || c == '_'
}

/// A random password of `len` distinct password characters, or of all 63 of
/// them when `len` is larger.
pub fn gen_new_password(len: usize) -> (r: String)
    ensures
        r@.len() == (if len < 63 { len as int } else { 63 }),
        forall|i: int| 0 <= i < r@.len() ==> is_password_char(#[trigger] r@[i]),
{
    proof {
        reveal_strlit("abcdefghijklmnopqrstuvwxyzABCDEFGHIJKLMNOPQRSTUVWXYZ0123456789_");
    }
    assert(PASSWORD_CHARS@.len() == 63);
    assert(forall|i: int| 0 <= i < PASSWORD_CHARS@.len() ==> is_password_char(#[trigger] PASSWORD_CHARS@[i])
        && (PASSWORD_CHARS@[i] as u32) < 128);
    let r = choose_multiple_ascii(PASSWORD_CHARS, len);
    assert forall|i: int| 0 <= i < r@.len() implies is_password_char(#[trigger] r@[i]) by {
        let j = choose|j: int| 0 <= j < PASSWORD_CHARS@.len() && PASSWORD_CHARS@[j] == r@[i];
        assert(is_password_char(PASSWORD_CHARS@[j]));
    }
    r
}

/// One configured task: a closed union of the kinds of work the system knows.
#[derive(Debug, Clone)]
pub enum TaskConfig {
    Daemon(Daemon),
    Tui(TUI),
    Web(WebConfig),
    WebUi(WebUiRocket),
    Connector(IRC),
    DatabaseBootstrap(Postgres),
}

/// Whether spawning the task starts anything; a disabled task is no error.
pub open spec fn task_enabled(t: TaskConfig) -> bool {
    match t {
        TaskConfig::Daemon(d) => d.enabled,
        TaskConfig::Tui(t) => t.enabled,
        TaskConfig::Web(w) => w.enabled,
        TaskConfig::WebUi(w) => w.enabled,
        TaskConfig::Connector(c) => c.enabled,
        TaskConfig::DatabaseBootstrap(p) => p.enabled,
    }
}

/// The numbers of the enabled tasks among the first `n`, in order.
pub open spec fn enabled_prefix(tasks: Seq<TaskConfig>, n: nat) -> Seq<u64>
    decreases n,
{
    if n == 0 {
        Seq::empty()
    } else if task_enabled(tasks[n - 1]) {
        enabled_prefix(tasks, (n - 1) as nat).push((n - 1) as u64)
    } else {
        enabled_prefix(tasks, (n - 1) as nat)
    }
}

/// The numbers of the enabled tasks, in order.
pub open spec fn enabled_tasks(tasks: Seq<TaskConfig>) -> Seq<u64> {
    enabled_prefix(tasks, tasks.len())
}

impl TaskConfig {
    /// Whether spawning the task starts anything.
    pub fn is_enabled(&self) -> (r: bool)
        ensures
            r == task_enabled(*self),
    {
        match self {
            TaskConfig::Daemon(d) => d.enabled,
            TaskConfig::Tui(t) => t.enabled,
            TaskConfig::Web(w) => w.enabled,
            TaskConfig::WebUi(w) => w.enabled,
            TaskConfig::Connector(c) => c.enabled,
            TaskConfig::DatabaseBootstrap(p) => p.enabled,
        }
    }

    /// The name of the kind of task.
    pub fn name(&self) -> (r: &'static str)
        ensures
            self is Daemon ==> r@ == "daemon"@,
            self is Tui ==> r@ == "tui"@,
            self is Web ==> r@ == "web"@,
            self is WebUi ==> r@ == "web-ui"@,
            self is Connector ==> r@ == "connector"@,
            self is DatabaseBootstrap ==> r@ == "database"@,
    {
        match self {
            TaskConfig::Daemon(_) => "daemon",
            TaskConfig::Tui(_) => "tui",
            TaskConfig::Web(_) => "web",
            TaskConfig::WebUi(_) => "web-ui",
            TaskConfig::Connector(_) => "connector",
            TaskConfig::DatabaseBootstrap(_) => "database",
        }
    }
}

/// Where a task is in its life; a task is spawned at most once.
#[derive(Debug, Clone, Copy, PartialEq, Eq, Structural)]
pub enum TaskState {
    Configured,
    Spawned,
    Running,
    Completed,
    Failed,
    JoinFailed,
}

/// How a task's handle resolved.
#[derive(Debug, Clone, Copy, PartialEq, Eq, Structural)]
pub enum TaskOutcome {
    Completed,
    /// The task returned an error of its own.
    Failed,
    /// The unit that ran it ended abnormally.
    JoinFailed,
}

/// What moves a task on.
#[derive(Debug, Clone, Copy, PartialEq, Eq, Structural)]
pub enum TaskEvent {
    Spawn,
    Start,
    Finish(TaskOutcome),
}

/// The state after `event`, or `None` when the event cannot happen there.
pub open spec fn task_step(state: TaskState, event: TaskEvent) -> Option<TaskState> {
    match (state, event) {
        (TaskState::Configured, TaskEvent::Spawn) => Some(TaskState::Spawned),
        (TaskState::Spawned, TaskEvent::Start) => Some(TaskState::Running),
        (TaskState::Running, TaskEvent::Finish(TaskOutcome::Completed)) => Some(TaskState::Completed),
        (TaskState::Running, TaskEvent::Finish(TaskOutcome::Failed)) => Some(TaskState::Failed),
        (TaskState::Running, TaskEvent::Finish(TaskOutcome::JoinFailed)) => Some(TaskState::JoinFailed),
        _ => None,
    }
}

impl TaskState {
    /// The state after `event`, or `None` when the event cannot happen here.
    pub fn step(self, event: TaskEvent) -> (r: Option<TaskState>)
        ensures
            r == task_step(self, event),
    {
        match (self, event) {
            (TaskState::Configured, TaskEvent::Spawn) => Some(TaskState::Spawned),
            (TaskState::Spawned, TaskEvent::Start) => Some(TaskState::Running),
            (TaskState::Running, TaskEvent::Finish(TaskOutcome::Completed)) => Some(TaskState::Completed),
            (TaskState::Running, TaskEvent::Finish(TaskOutcome::Failed)) => Some(TaskState::Failed),
            (TaskState::Running, TaskEvent::Finish(TaskOutcome::JoinFailed)) => Some(TaskState::JoinFailed),
            _ => None,
        }
    }

    /// Whether the task is over.
    pub fn is_final(self) -> (r: bool)
        ensures
            r == (self == TaskState::Completed || self == TaskState::Failed || self == TaskState::JoinFailed),
    {
        match self {
            TaskState::Completed | TaskState::Failed | TaskState::JoinFailed => true,
            _ => false,
        }
    }
}

/// The command-line settings: a run mode that overrides the configured one,
/// and the directory of the configuration and data files.
#[derive(Debug, Clone)]
pub struct SystemArgs {
    pub run_mode: Option<RunMode>,
    pub root_dir: String,
}

/// The name of the configuration file in the root directory.
pub const CONFIG_FILE_NAME: &'static str = "overbot.ron";

/// The system's configuration.
#[derive(Debug, Clone)]
pub struct SystemConfig {
    pub run_mode: RunMode,
    pub database: DatabaseConfig,
    pub web: Option<WebConfig>,
}

impl SystemArgs {
    pub fn new(run_mode: Option<RunMode>, root_dir: String) -> (r: SystemArgs)
        ensures
            r.run_mode == run_mode,
            r.root_dir == root_dir,
    {
        SystemArgs { run_mode, root_dir }
    }

    /// The configuration with the run mode given here, if any, in place of
    /// its own.
    pub fn apply_to(&self, config: SystemConfig) -> (r: SystemConfig)
        ensures
            r.run_mode == (match self.run_mode {
                Some(m) => m,
                None => config.run_mode,
            }),
            r.database == config.database,
            r.web == config.web,
    {
        match self.run_mode {
            Some(m) => SystemConfig { run_mode: m, ..config },
            None => config,
        }
    }
}

impl SystemConfig {
    /// The default configuration on a machine with `cpu_count` processors:
    /// foreground, with an embedded database under `./` on port 5433 with a
    /// fresh random 32-character password, and the web service's defaults.
    pub fn defaults(cpu_count: usize) -> (r: SystemConfig)
        ensures
            r.run_mode == RunMode::Foreground,
            r.database.max_connections == 5,
            r.database.connection matches crate::database::ConnectionType::Embedded { root_path: rp, port: p, username: u, password: pw, persistent: ps, start_timeout_ms: t, host: h }
                && rp@ == "./"@ && p == 5433 && u@ == "postgres"@ && pw@.len() == 32 && ps && t == 5000
                && h@ == crate::database::DEFAULT_EMBEDDED_HOST@,
            r.web matches Some(w) && w.enabled && w.url_root@ == "/"@ && w.port == crate::web::DEFAULT_WEB_PORT
                && w.workers == crate::web::default_workers(cpu_count as nat),
    {
        let database = DatabaseConfig::new_embedded(
            5,
            "./".to_owned(),
            5433,
            "postgres".to_owned(),
            gen_new_password(32),
            true,
            5000,
            None,
        );
        SystemConfig { run_mode: RunMode::Foreground, database, web: Some(WebConfig::defaults(cpu_count)) }
    }
}

/// The task that the run mode asks for: the daemon (enabled in daemon mode
/// only) or the terminal UI.
pub open spec fn mode_task(mode: RunMode) -> TaskConfig {
    match mode {
        RunMode::Foreground => TaskConfig::Daemon(Daemon { enabled: false }),
        RunMode::Daemon => TaskConfig::Daemon(Daemon { enabled: true }),
        RunMode::TUI => TaskConfig::Tui(TUI { enabled: true }),
    }
}

/// Whether `tasks` are those that `config` asks for: the web service if
/// configured, then the task of the run mode, then the chat-protocol connector
/// with its data under `irc`.
pub open spec fn tasks_for(config: SystemConfig, tasks: Seq<TaskConfig>) -> bool {
    let k: int = if config.web is Some { 1 } else { 0 };
    &&& tasks.len() == k + 2
    &&& (config.web matches Some(w) ==> tasks[0] == TaskConfig::Web(w))
    &&& tasks[k] == mode_task(config.run_mode)
    &&& tasks[k + 1] matches TaskConfig::Connector(c) && c.enabled && c.data_path@ == "irc"@
}

/// The tasks that `config` asks for.
pub fn configured_tasks(config: &SystemConfig) -> (r: Vec<TaskConfig>)
    ensures
        tasks_for(*config, r@),
{
    let mut tasks: Vec<TaskConfig> = Vec::new();
    match &config.web {
        Some(w) => {
            tasks.push(
                TaskConfig::Web(
                    WebConfig {
                        enabled: w.enabled,
                        url_root: w.url_root.clone(),
                        address: w.address.clone(),
                        port: w.port,
                        workers: w.workers,
                        keep_alive: w.keep_alive,
                        grace: w.grace,
                        mercy: w.mercy,
                        cli_colors: w.cli_colors,
                    },
                ),
            );
        },
        None => {},
    }
    let mode = match config.run_mode {
        RunMode::Foreground => TaskConfig::Daemon(Daemon::new(false)),
        RunMode::Daemon => TaskConfig::Daemon(Daemon::new(true)),
        RunMode::TUI => TaskConfig::Tui(TUI::new(true)),
    };
    tasks.push(mode);
    tasks.push(TaskConfig::Connector(IRC::new(true)));
    tasks
}

/// Why the supervisor refused to start.
#[derive(Debug, Clone, Copy, PartialEq, Eq, Structural)]
pub enum SupervisorError {
    /// The tasks were started already and some are still queued.
    AlreadyStarted,
}

/// The supervisor: the configuration, the tasks it describes and the queue of
/// started tasks. The cancellation bus and the registry are shared with the
/// tasks, and live beside it.
pub struct System {
    pub config: SystemConfig,
    pub root_path: String,
    pub tasks: Vec<TaskConfig>,
    pub system_tasks: TaskQueue,
}

impl System {
    /// The queue of started tasks, the next to be awaited first.
    pub open spec fn queued(&self) -> Seq<u64> {
        queued_tasks(self.system_tasks)
    }

    /// A supervisor of the given tasks; none is started, the bus has not
    /// fired and the registry is empty.
    pub fn with_tasks(root_path: String, config: SystemConfig, tasks: Vec<TaskConfig>) -> (r: System)
        ensures
            r.config == config,
            r.root_path == root_path,
            r.tasks == tasks,
            r.queued().len() == 0,
    {
        System {
            config,
            root_path,
            tasks,
            system_tasks: queue_new(),
        }
    }

    /// A supervisor of the tasks that the configuration asks for.
    pub fn new(root_path: String, config: SystemConfig) -> (r: System)
        ensures
            r.config == config,
            r.root_path == root_path,
            tasks_for(config, r.tasks@),
            r.queued().len() == 0,
    {
        let tasks = configured_tasks(&config);
        System::with_tasks(root_path, config, tasks)
    }

    /// Starts the tasks: every enabled one is queued, by its number, in
    /// order; the numbers are handed back so that the caller spawns those
    /// tasks. Refused while started tasks are still queued.
    pub fn startup_systems(&mut self) -> (r: Result<Vec<u64>, SupervisorError>)
        requires
            old(self).tasks@.len() < u64::MAX,
        ensures
            final(self).tasks == old(self).tasks,
            final(self).config == old(self).config,
            old(self).queued().len() > 0 ==> r == Err::<Vec<u64>, SupervisorError>(SupervisorError::AlreadyStarted)
                && final(self).queued() == old(self).queued(),
            old(self).queued().len() == 0 ==> (r matches Ok(ids) && ids@ == enabled_tasks(old(self).tasks@)
                && final(self).queued() == ids@),
    {
        if !queue_is_empty(&self.system_tasks) {
            return Err(SupervisorError::AlreadyStarted);
        }
        let mut started: Vec<u64> = Vec::new();
        let n = self.tasks.len();
        let mut i: usize = 0;
        while i < n
            invariant
                n == self.tasks@.len(),
                n < u64::MAX,
                i <= n,
                self.tasks == old(self).tasks,
                self.config == old(self).config,
                started@ == enabled_prefix(self.tasks@, i as nat),
                self.queued() == started@,
            decreases n - i,
        {
            if self.tasks[i].is_enabled() {
                queue_push(&mut self.system_tasks, i as u64);
                started.push(i as u64);
            }
            i += 1;
        }
        Ok(started)
    }

    /// The next started task to await, which leaves the queue; `None` once
    /// every started task was awaited.
    pub fn next_task(&mut self) -> (r: Option<u64>)
        ensures
            final(self).tasks == old(self).tasks,
            final(self).config == old(self).config,
            old(self).queued().len() == 0 ==> r is None && final(self).queued() == old(self).queued(),
            old(self).queued().len() > 0 ==> r == Some(old(self).queued()[0])
                && final(self).queued() == old(self).queued().drop_first(),
    {
        queue_pop(&mut self.system_tasks)
    }

    /// How many started tasks are still to be awaited.
    pub fn pending_tasks(&self) -> (r: usize)
        ensures
            r == self.queued().len(),
    {
        queue_len(&self.system_tasks)
    }
}

/// A supervisor configured with an enabled daemon and a disabled web service
/// starts the daemon alone; once the bus fires, the daemon's reaction ends it,
/// and the run loop, after awaiting that one task, finds the queue empty.
pub proof fn lemma_cancelled_daemon_drains(web: WebConfig)
    requires
        !web.enabled,
    ensures
        enabled_tasks(seq![
            TaskConfig::Daemon(Daemon { enabled: true }),
            TaskConfig::Web(web),
        ]) == seq![0u64],
        daemon_reaction(DaemonEvent::Cancelled).exit,
        !daemon_reaction(DaemonEvent::Cancelled).signal,
        seq![0u64].drop_first().len() == 0,
{
    let tasks = seq![
        TaskConfig::Daemon(Daemon { enabled: true }),
        TaskConfig::Web(web),
    ];
    assert(enabled_prefix(tasks, 0) == Seq::<u64>::empty());
    assert(enabled_prefix(tasks, 1) == seq![0u64]);
    assert(enabled_prefix(tasks, 2) == seq![0u64]);
    assert(seq![0u64].drop_first() =~= Seq::<u64>::empty());
}

} // verus!
