//! The persistent log: where it lives and the text of each line. Writing the
//! lines to disk is left to the caller.
use vstd::prelude::*;
use crate::config::{app_data_dir, app_dir_of, HostEnvironment};
use crate::paths::{join_path, path_push};
use crate::text::{decimal, push_decimal, push_decimal_padded, push_str_chars, string_from_chars, zero_padded};

verus! {

/// `<app dir>/logs/omni-downloader.log`.
pub open spec fn log_file_of(env: HostEnvironment) -> Seq<char> {
    let p = env.platform;
    path_push(p, path_push(p, app_dir_of(env), "logs"@), "omni-downloader.log"@)
}

/// The log file that logging is initialized with.
pub fn log_file_path(env: &HostEnvironment) -> (r: String)
    ensures
        r@ == log_file_of(*env),
{
    let app = app_data_dir(env);
    let dir = join_path(env.platform, app.as_str(), "logs");
    join_path(env.platform, dir.as_str(), "omni-downloader.log")
}

/// The file log lines go to: the one logging was initialized with, else the
/// default location under the app directory.
pub fn log_path(initialized: Option<&str>, env: &HostEnvironment) -> (r: String)
    ensures
        r@ == (match initialized {
            Some(path) => path@,
            None => log_file_of(*env),
        }),
{
    match initialized {
        Some(path) => String::from_str(path),
        None => log_file_path(env),
    }
}

/// Where log lines go within one process: the file logging was first
/// initialized with, once it was.
pub struct LogLocation {
    pub initialized: Option<String>,
}

pub open spec fn stored_view(o: Option<String>) -> Option<Seq<char>> {
    match o {
        Some(s) => Some(s@),
        None => None,
    }
}

/// The stored file after initializing on `env`: the one stored before, if
/// any, else the host's log file.
pub open spec fn after_init(stored: Option<Seq<char>>, env: HostEnvironment) -> Option<Seq<char>> {
    match stored {
        Some(path) => Some(path),
        None => Some(log_file_of(env)),
    }
}

/// The file lines go to: the stored one, else the host's log file.
pub open spec fn current_log_file(stored: Option<Seq<char>>, env: HostEnvironment) -> Seq<char> {
    match stored {
        Some(path) => path,
        None => log_file_of(env),
    }
}

impl LogLocation {
    /// Initializes logging on `env`: the first initialized file is kept;
    /// returns the host's log file, the one reported as set up.
    pub fn initialize(&mut self, env: &HostEnvironment) -> (r: String)
        ensures
            r@ == log_file_of(*env),
            stored_view(final(self).initialized) == after_init(stored_view(old(self).initialized), *env),
    {
        let path = log_file_path(env);
        if self.initialized.is_none() {
            self.initialized = Some(path.clone());
        }
        path
    }

    /// The file the next line goes to.
    pub fn current(&self, env: &HostEnvironment) -> (r: String)
        ensures
            r@ == current_log_file(stored_view(self.initialized), *env),
    {
        match &self.initialized {
            Some(path) => log_path(Some(path.as_str()), env),
            None => log_path(None, env),
        }
    }
}

/// Once logging was initialized, later initializations on any host do not
/// move the log file, and every line goes to the first initialized file
/// whatever the host reads later.
pub proof fn law_log_path_set_once(
    stored: Option<Seq<char>>,
    first: HostEnvironment,
    later: HostEnvironment,
)
    ensures
        after_init(after_init(stored, first), later) == after_init(stored, first),
        current_log_file(after_init(None, first), later) == log_file_of(first),
{
}

/// `<timestamp> [<level>] [<target>] <message>`.
pub open spec fn log_line_text(
    timestamp: Seq<char>,
    level: Seq<char>,
    target: Seq<char>,
    message: Seq<char>,
) -> Seq<char> {
    timestamp + " ["@ + level + "] ["@ + target + "] "@ + message
}

/// One line of the log.
pub fn log_line(timestamp: &str, level: &str, target: &str, message: &str) -> (r: String)
    ensures
        r@ == log_line_text(timestamp@, level@, target@, message@),
{
    let mut out: Vec<char> = Vec::new();
    push_str_chars(&mut out, timestamp);
    push_str_chars(&mut out, " [");
    push_str_chars(&mut out, level);
    push_str_chars(&mut out, "] [");
    push_str_chars(&mut out, target);
    push_str_chars(&mut out, "] ");
    push_str_chars(&mut out, message);
    string_from_chars(&out)
}

/// An informational line of the application.
pub fn info(timestamp: &str, message: &str) -> (r: String)
    ensures
        r@ == log_line_text(timestamp@, "INFO"@, "app"@, message@),
{
    log_line(timestamp, "INFO", "app", message)
}

/// An error line of the application.
pub fn error(timestamp: &str, message: &str) -> (r: String)
    ensures
        r@ == log_line_text(timestamp@, "ERROR"@, "app"@, message@),
{
    log_line(timestamp, "ERROR", "app", message)
}

/// Seconds and milliseconds since the Unix epoch as `<secs>.<millis:03>`, or
/// `0.000` when the clock reads before the epoch.
pub open spec fn timestamp_text(since_epoch: Option<(u64, u32)>) -> Seq<char> {
    match since_epoch {
        Some((secs, millis)) => decimal(secs as nat) + "."@ + zero_padded(decimal(millis as nat), 3),
        None => "0.000"@,
    }
}

/// The timestamp a log line starts with, from the time elapsed since the
/// Unix epoch (`None` when the clock reads before it).
pub fn current_timestamp(since_epoch: Option<(u64, u32)>) -> (r: String)
    ensures
        r@ == timestamp_text(since_epoch),
{
    match since_epoch {
        Some((secs, millis)) => {
            let mut out: Vec<char> = Vec::new();
            push_decimal(&mut out, secs);
            push_str_chars(&mut out, ".");
            push_decimal_padded(&mut out, millis as u64, 3);
            string_from_chars(&out)
        },
        None => String::from_str("0.000"),
    }
}

/// The message logged once the log file is set up.
pub fn init_message(log_file: &str) -> (r: String)
    ensures
        r@ == "persistent log initialized at "@ + log_file@,
{
    let mut out: Vec<char> = Vec::new();
    push_str_chars(&mut out, "persistent log initialized at ");
    push_str_chars(&mut out, log_file);
    string_from_chars(&out)
}

/// `panic at <file>:<line>: <payload>` and the backtrace on the next line;
/// `unknown location` and `panic without string payload` stand in for what
/// the panic does not carry.
pub open spec fn panic_text(
    location: Option<(Seq<char>, u32)>,
    payload: Option<Seq<char>>,
    backtrace: Seq<char>,
) -> Seq<char> {
    let loc = match location {
        Some((file, line)) => file + ":"@ + decimal(line as nat),
        None => "unknown location"@,
    };
    let what = match payload {
        Some(p) => p,
        None => "panic without string payload"@,
    };
    "panic at "@ + loc + ": "@ + what + "\n"@ + backtrace
}

/// The message logged when the process panics.
pub fn panic_message(location: Option<(&str, u32)>, payload: Option<&str>, backtrace: &str) -> (r:
    String)
    ensures
        r@ == panic_text(
            match location {
                Some((file, line)) => Some((file@, line)),
                None => None,
            },
            match payload {
                Some(p) => Some(p@),
                None => None,
            },
            backtrace@,
        ),
{
    let mut out: Vec<char> = Vec::new();
    push_str_chars(&mut out, "panic at ");
    match location {
        Some((file, line)) => {
            push_str_chars(&mut out, file);
            push_str_chars(&mut out, ":");
            push_decimal(&mut out, line as u64);
        },
        None => push_str_chars(&mut out, "unknown location"),
    }
    push_str_chars(&mut out, ": ");
    match payload {
        Some(p) => push_str_chars(&mut out, p),
        None => push_str_chars(&mut out, "panic without string payload"),
    }
    push_str_chars(&mut out, "\n");
    push_str_chars(&mut out, backtrace);
    string_from_chars(&out)
}

} // verus!
