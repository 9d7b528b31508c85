//! Rules of a webhook relay and of the operational log it keeps.
//!
//! The relay takes a JSON payload, sends one member of it on to a fixed
//! service and hands back what that service answers. What it does on the way
//! it writes into a log file, one line for each event, and serves that file
//! with the entries of the last seven days.
//!
//! This crate holds the rules and none of the plumbing: no socket, no file,
//! no environment. `store` and `prune` are the log; `handlers`, `config`,
//! `report` and `server` say what the relay answers, shows, reports and
//! listens on.

use crate::store::{console_line, entry_line, line_bytes, next_write, LogEntry, LogWrite};
use crate::time::{is_word, Timestamp};
use vstd::prelude::*;

pub mod config;
pub mod handlers;
pub mod http;
pub mod prune;
pub mod report;
pub mod server;
pub mod store;
pub mod text;
pub mod time;

verus! {

/// Where the log file lies.
pub const LOG_FILE_PATH: &'static str = "logs/log.txt";

/// Records an event that happens now: names the bytes to add to a log file
/// of `file_len` bytes, and the line to show whoever watches the process.
/// The entry carries the time of the local clock, whatever that is.
pub fn log_msg(file_len: u64, message: &str, emoji: &str) -> (write: LogWrite)
    ensures
        write.console@ == console_line(emoji@, message@),
        exists|at: Timestamp|
            {
                &&& at.writable()
                &&& is_word(at.text())
                &&& write.bytes@ == line_bytes(
                    file_len == 0,
                    #[trigger] entry_line(at.text(), emoji@, message@),
                )
            },
{
    let entry = LogEntry::now(emoji, message);
    let write = next_write(file_len, &entry).unwrap();
    assert(write.bytes@ == line_bytes(
        file_len == 0,
        entry_line(entry.timestamp.text(), emoji@, message@),
    ));
    write
}

} // verus!
