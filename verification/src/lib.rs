//! Scheduling and timetable engine of a reminder daemon.
//!
//! Every recipient has a next due instant. A tick of the scheduler finds the
//! recipients that are due, puts each of them off by its own interval and
//! names them for notification. The due instants survive a restart through a
//! timetable, a JSON text that is merged into the registry at startup.

pub mod company;
pub mod config;
pub mod daemon;
pub mod instant;
pub mod json;
pub mod laws;
pub mod schedule;
pub mod server;
pub mod shell;
pub mod text;
pub mod timetable;

pub use company::{effective_interval, Company, NextOutcome, Restored, Step, DEFAULT_INTERVAL};
pub use config::{Config, MergeNote};
pub use daemon::{Action, Event, LoadFailure, LoadReport};
pub use instant::{Instant, Timestamp, TimestampError};
pub use schedule::{Tick, TICK_SECONDS};
pub use server::{Encryption, ServerConfig};
pub use shell::{shell, CompletionShell};
pub use timetable::{Timetable, TimetableEntry, TimetableError};
