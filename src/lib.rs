//! A process host's orchestration core: a registry through which tasks find
//! each other's resources, a level-triggered cancellation bus, checksum-checked
//! schema migrations, the configured task kinds and their decisions, and the
//! supervisor that starts them and waits for them.

pub mod accounts;
pub mod cancel;
pub mod database;
pub mod logger;
pub mod registry;
pub mod system;
pub mod tasks;
pub mod web;
