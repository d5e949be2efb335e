//! A supervisor for a fixed set of local services.
//!
//! The library decides; its host acts. Every operation on a service is a short
//! conversation: the library names what it needs done next (a process to
//! spawn, a path to look for, a pause), the host does it and reports back, and
//! the library moves the service's state on. Nothing here touches processes
//! or clocks, so each decision is a function of what was reported.
//!
//! - `terminal`: the log that everything writes to, capped in length.
//! - `status`: the status of a service and its shared record.
//! - `command`, `runner`: commands, the requests to the host and its replies,
//!   and the bounded wait for a command.
//! - `model`: the life cycle of a service as mathematics.
//! - `services`: the controller of one service.
//! - `supervisor`: all services together, and their orderly shutdown.
//! - `laws`: what holds of every service and every shutdown.
//! - `metrics`: which processes belong to a service and what they use.
//! - `env_path`: absolute paths and the search path.
//! - `text`: the small text operations the others are built from.

pub mod command;
pub mod env_path;
pub mod laws;
pub mod metrics;
pub mod model;
pub mod runner;
pub mod services;
pub mod status;
pub mod supervisor;
pub mod terminal;
pub mod text;
