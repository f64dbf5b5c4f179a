//! Bulk mailbox migration between IMAP hosts. A job source turns tabular
//! input into migration jobs, failing fast on incomplete rows; a bounded job
//! runner dispatches each job's external synchronization command while never
//! letting more than a concurrency cap run at once, records exactly one
//! outcome per job, and lets no failing job disturb the others.

pub mod command;
pub mod input;
pub mod job;
pub mod limits;
pub mod runner;
