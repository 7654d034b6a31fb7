//! The settings of the HTTP service.
use crate::database::Migrations;
use vstd::prelude::*;

verus! {

/// The port served on by default.
pub const DEFAULT_WEB_PORT: u16 = 8000;

/// How the HTTP service is served.
#[derive(Debug, Clone, PartialEq, Eq)]
pub struct WebConfig {
    pub enabled: bool,
    /// The path under which everything is served.
    pub url_root: String,
    /// The IP address served on.
    pub address: String,
    pub port: u16,
    /// The number of threads that run requests.
    pub workers: usize,
    /// Keep-alive timeout in seconds; none when 0.
    pub keep_alive: u32,
    /// Seconds to let server I/O finish at shutdown.
    pub grace: u32,
    /// Seconds to let connection I/O finish at shutdown.
    pub mercy: u32,
    /// Whether logs use colours.
    pub cli_colors: bool,
}

/// Half the processors, rounded up.
pub open spec fn default_workers(cpu_count: nat) -> nat {
    (cpu_count + 1) / 2
}

impl WebConfig {
    /// The default settings on a machine with `cpu_count` processors: enabled,
    /// at `/` on 0.0.0.0:8000, with half the processors (rounded up) as
    /// workers, a 5 s keep-alive, 2 s of grace and 3 s of mercy, in colour.
    pub fn defaults(cpu_count: usize) -> (r: WebConfig)
        ensures
            r.enabled,
            r.url_root@ == "/"@,
            r.address@ == "0.0.0.0"@,
            r.port == DEFAULT_WEB_PORT,
            r.workers == default_workers(cpu_count as nat),
            r.keep_alive == 5,
            r.grace == 2,
            r.mercy == 3,
            r.cli_colors,
    {
        WebConfig {
            enabled: true,
            url_root: "/".to_owned(),
            address: "0.0.0.0".to_owned(),
            port: DEFAULT_WEB_PORT,
            workers: cpu_count / 2 + cpu_count % 2,
            keep_alive: 5,
            grace: 2,
            mercy: 3,
            cli_colors: true,
        }
    }

    /// The default settings, served under `url_root`.
    pub fn new(url_root: String, cpu_count: usize) -> (r: WebConfig)
        ensures
            r.enabled,
            r.url_root == url_root,
            r.address@ == "0.0.0.0"@,
            r.port == DEFAULT_WEB_PORT,
            r.workers == default_workers(cpu_count as nat),
            r.keep_alive == 5,
            r.grace == 2,
            r.mercy == 3,
            r.cli_colors,
    {
        WebConfig { url_root, ..WebConfig::defaults(cpu_count) }
    }

    /// The migrations that the service runs before it serves.
    pub fn migrations(&self) -> (r: Migrations)
        ensures
            r.module@ == "Web"@,
            r.migrations@.len() == 0,
    {
        Migrations::new("Web".to_owned(), Vec::new())
    }
}

} // verus!
