//! Scheduled, unattended backups into a BorgBackup repository.
//!
//! The crate holds the rules of the scheduler: when the next run is due, how a
//! repository is made ready, how an archive is named and created, and what is
//! reported afterwards. Waiting, detaching from the terminal and writing to a
//! log are left to the program that drives it.

pub mod borg;
pub mod util;
