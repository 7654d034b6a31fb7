//! The configured units of long-running work, and the decisions each makes
//! while it runs.
use crate::cancel::CancellationBus;
use crate::database::{ConnectionType, Migrations, embedded_connection, host_or_default};
use vstd::prelude::*;

verus! {

/// The type identity under which the database bootstrap task registers the
/// connection pool.
pub const DB_POOL_KEY: u64 = 1;

/// How many times the database bootstrap task looks, at shutdown, whether the
/// pool it removed from the registry is still held by someone.
pub const MAX_RELEASE_CHECKS: u32 = 50;

/// The pause between two such looks, in milliseconds.
pub const RELEASE_CHECK_INTERVAL_MS: u64 = 100;

/// The pause between two ticks of the terminal UI, in milliseconds.
pub const TUI_TICK_MS: u64 = 100;

/// At most this many terminal events are handled in one tick.
pub const TUI_EVENTS_PER_TICK: u32 = 100;

/// The task that waits for OS termination signals.
#[derive(Debug, Clone, Copy, PartialEq, Eq, Structural)]
pub struct Daemon {
    pub enabled: bool,
}

/// What wakes the daemon task.
#[derive(Debug, Clone, Copy, PartialEq, Eq, Structural)]
pub enum DaemonEvent {
    Hangup,
    Interrupt,
    Quit,
    Terminate,
    /// The cancellation bus fired.
    Cancelled,
}

/// What the daemon task does about an event.
#[derive(Debug, Clone, Copy, PartialEq, Eq, Structural)]
pub struct DaemonAction {
    /// Fire the cancellation bus.
    pub signal: bool,
    /// Leave the loop.
    pub exit: bool,
}

/// How the daemon task reacts to an event: a hangup is ignored; interrupt,
/// quit and terminate fire the bus and end the task; the bus firing ends it.
pub open spec fn daemon_reaction(event: DaemonEvent) -> DaemonAction {
    DaemonAction {
        signal: event == DaemonEvent::Interrupt || event == DaemonEvent::Quit || event == DaemonEvent::Terminate,
        exit: event != DaemonEvent::Hangup,
    }
}

impl Daemon {
    pub fn new(enabled: bool) -> (r: Daemon)
        ensures
            r.enabled == enabled,
    {
        Daemon { enabled }
    }

    /// Whether spawning it starts anything.
    pub fn is_enabled(&self) -> (r: bool)
        ensures
            r == self.enabled,
    {
        self.enabled
    }

    /// A hangup is ignored; interrupt, quit and terminate fire the bus and end
    /// the task; the bus firing ends the task.
    pub fn on_event(&self, event: DaemonEvent) -> (r: DaemonAction)
        ensures
            r == daemon_reaction(event),
    {
        match event {
            DaemonEvent::Hangup => DaemonAction { signal: false, exit: false },
            DaemonEvent::Interrupt => DaemonAction { signal: true, exit: true },
            DaemonEvent::Quit => DaemonAction { signal: true, exit: true },
            DaemonEvent::Terminate => DaemonAction { signal: true, exit: true },
            DaemonEvent::Cancelled => DaemonAction { signal: false, exit: true },
        }
    }
}

/// The terminal UI task.
#[derive(Debug, Clone, Copy, PartialEq, Eq, Structural)]
pub struct TUI {
    pub enabled: bool,
}

impl TUI {
    pub fn new(enabled: bool) -> (r: TUI)
        ensures
            r.enabled == enabled,
    {
        TUI { enabled }
    }

    /// Whether the UI loop goes on for another tick: not once the bus fired
    /// nor once the UI itself stopped.
    pub fn keep_running(&self, bus: &CancellationBus, ui_running: bool) -> (r: bool)
        ensures
            r == (!bus@ && ui_running),
    {
        !bus.is_signaled() && ui_running
    }

    /// Whether another event is handled in this tick: `handled` were handled
    /// so far, and the last one was handled if `last_handled`.
    pub fn handle_more_events(&self, handled: u32, ui_running: bool, last_handled: bool) -> (r: bool)
        ensures
            r == (handled < TUI_EVENTS_PER_TICK && ui_running && last_handled),
    {
        handled < TUI_EVENTS_PER_TICK && ui_running && last_handled
    }

    /// When the UI loop is over, for whatever reason, everything else is
    /// asked to stop too.
    pub fn on_exit(&self, bus: &mut CancellationBus)
        ensures
            final(bus)@,
    {
        bus.signal();
    }
}

/// The web service task.
#[derive(Debug, Clone, PartialEq, Eq)]
pub struct WebUiRocket {
    pub enabled: bool,
    pub url_root: String,
}

impl WebUiRocket {
    /// Served at the root, `/`.
    pub fn new(enabled: bool) -> (r: WebUiRocket)
        ensures
            r.enabled == enabled,
            r.url_root@ == "/"@,
    {
        WebUiRocket { enabled, url_root: "/".to_owned() }
    }

    /// The same service, served under `url_root`.
    pub fn url_root(self, url_root: String) -> (r: WebUiRocket)
        ensures
            r.enabled == self.enabled,
            r.url_root == url_root,
    {
        WebUiRocket { url_root, ..self }
    }

    /// The migrations that the service runs before it serves.
    pub fn migrations(&self) -> (r: Migrations)
        ensures
            r.module@ == "RocketWebUI"@,
            r.migrations@.len() == 0,
    {
        Migrations::new("RocketWebUI".to_owned(), Vec::new())
    }
}

/// The open chat-protocol connections; none yet.
#[derive(Debug, Clone, Copy, PartialEq, Eq, Structural)]
pub struct IrcConnections {}

/// The chat-protocol connector task.
#[derive(Debug, Clone, PartialEq, Eq)]
pub struct IRC {
    pub enabled: bool,
    pub data_path: String,
}

impl IRC {
    /// Keeps its data under `irc`.
    pub fn new(enabled: bool) -> (r: IRC)
        ensures
            r.enabled == enabled,
            r.data_path@ == "irc"@,
    {
        IRC { enabled, data_path: "irc".to_owned() }
    }

    /// The same connector, keeping its data under `data_path`.
    pub fn irc_data(self, data_path: String) -> (r: IRC)
        ensures
            r.enabled == self.enabled,
            r.data_path == data_path,
    {
        IRC { data_path, ..self }
    }

    /// The migrations that the connector runs when it starts.
    pub fn migrations(&self) -> (r: Migrations)
        ensures
            r.module@ == "IRC"@,
            r.migrations@.len() == 0,
    {
        Migrations::new("IRC".to_owned(), Vec::new())
    }
}

/// The database bootstrap task: it opens the connection pool, registers it
/// for the other tasks, and takes it back at shutdown.
#[derive(Debug, Clone)]
pub struct Postgres {
    pub enabled: bool,
    pub connection: ConnectionType,
    pub max_connections: u8,
}

/// The next move while waiting, at shutdown, for the pool to be let go.
#[derive(Debug, Clone, Copy, PartialEq, Eq, Structural)]
pub enum ReleaseStep {
    /// Nobody holds the pool any more.
    Released,
    /// Look again after the pause.
    Wait,
    /// Someone still holds it after every look: report it and go on.
    GaveUp,
}

impl Postgres {
    /// Bootstraps an embedded server.
    pub fn new_embedded(
        enabled: bool,
        max_connections: u8,
        root_path: String,
        port: i16,
        username: String,
        password: String,
        persistent: bool,
        start_timeout_ms: u64,
        host: Option<String>,
    ) -> (r: Postgres)
        ensures
            r.enabled == enabled,
            r.max_connections == max_connections,
            r.connection matches ConnectionType::Embedded { root_path: rp, port: p, username: u, password: pw, persistent: ps, start_timeout_ms: t, host: h }
                && rp == root_path && p == port && u == username && pw == password && ps == persistent
                && t == start_timeout_ms && h@ == host_or_default(host),
    {
        let connection = embedded_connection(root_path, port, username, password, persistent, start_timeout_ms, host);
        Postgres { enabled, connection, max_connections }
    }

    /// Connects to an external server reached by `uri`.
    pub fn new_external(enabled: bool, max_connections: u8, uri: String) -> (r: Postgres)
        ensures
            r.enabled == enabled,
            r.max_connections == max_connections,
            r.connection == ConnectionType::External(uri),
    {
        Postgres { enabled, connection: ConnectionType::External(uri), max_connections }
    }

    /// The next move after `checks_done` looks, the last of which found the
    /// pool still held if `still_held`.
    pub fn release_step(&self, checks_done: u32, still_held: bool) -> (r: ReleaseStep)
        ensures
            r == (if !still_held {
                ReleaseStep::Released
            } else if checks_done < MAX_RELEASE_CHECKS {
                ReleaseStep::Wait
            } else {
                ReleaseStep::GaveUp
            }),
    {
        if !still_held {
            ReleaseStep::Released
        } else if checks_done < MAX_RELEASE_CHECKS {
            ReleaseStep::Wait
        } else {
            ReleaseStep::GaveUp
        }
    }
}

} // verus!
