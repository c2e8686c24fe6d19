//! The command line of the headless worker: which mode it runs in and what a
//! `download` command asks for.
use vstd::prelude::*;
use crate::config::AppConfig;
use crate::mcp::DownloadRequest;
use crate::text::{chars_of, str_eq, string_views, trim, trim_chars};

verus! {

/// What the worker was asked to do.
pub enum WorkerCommand {
    /// No arguments: print the usage and fail.
    Usage,
    /// `--mcp` or `mcp`: serve JSON-RPC on standard input and output.
    Mcp,
    /// `download ...`: run one download.
    Download,
    /// `--help`, `-h` or `help`: print the usage.
    Help,
    /// Anything else: report it, print the usage and fail.
    Unknown(String),
}

/// Picks the mode from the first argument.
pub fn worker_command(args: &[String]) -> (r: WorkerCommand)
    ensures
        args@.len() == 0 ==> r is Usage,
        args@.len() > 0 ==> {
            let a = args@[0]@;
            if a == "--mcp"@ || a == "mcp"@ {
                r is Mcp
            } else if a == "download"@ {
                r is Download
            } else if a == "--help"@ || a == "-h"@ || a == "help"@ {
                r is Help
            } else {
                r matches WorkerCommand::Unknown(name) && name@ == a
            }
        },
{
    if args.len() == 0 {
        return WorkerCommand::Usage;
    }
    let a = args[0].as_str();
    if str_eq(a, "--mcp") || str_eq(a, "mcp") {
        WorkerCommand::Mcp
    } else if str_eq(a, "download") {
        WorkerCommand::Download
    } else if str_eq(a, "--help") || str_eq(a, "-h") || str_eq(a, "help") {
        WorkerCommand::Help
    } else {
        WorkerCommand::Unknown(args[0].clone())
    }
}

/// The value after the first occurrence of `name` that has a value after it.
pub open spec fn arg_value_from(args: Seq<Seq<char>>, name: Seq<char>, i: int) -> Option<Seq<char>>
    decreases args.len() - i,
{
    if i < 0 || i + 1 >= args.len() {
        None
    } else if args[i] == name {
        Some(args[i + 1])
    } else {
        arg_value_from(args, name, i + 1)
    }
}

pub open spec fn arg_value(args: Seq<Seq<char>>, name: Seq<char>) -> Option<Seq<char>> {
    arg_value_from(args, name, 0)
}

/// The value given for option `name`: the argument that follows its first
/// occurrence that is followed by one.
pub fn argument_value(args: &[String], name: &str) -> (r: Option<String>)
    ensures
        (match r {
            Some(s) => Some(s@),
            None => None,
        }) == arg_value(string_views(args@), name@),
{
    let ghost views = string_views(args@);
    let mut i: usize = 0;
    while args.len() > 0 && i < args.len() - 1
        invariant
            i <= args.len(),
            views == string_views(args@),
            arg_value(views, name@) == arg_value_from(views, name@, i as int),
        decreases args.len() - i,
    {
        if str_eq(args[i].as_str(), name) {
            return Some(args[i + 1].clone());
        }
        i = i + 1;
    }
    None
}

/// Whether an argument equals `flag`.
pub fn has_flag(args: &[String], flag: &str) -> (r: bool)
    ensures
        r == exists|i: int| 0 <= i < args@.len() && #[trigger] args@[i]@ == flag@,
{
    let mut i: usize = 0;
    while i < args.len()
        invariant
            i <= args.len(),
            forall|j: int| 0 <= j < i ==> #[trigger] args@[j]@ != flag@,
        decreases args.len() - i,
    {
        if str_eq(args[i].as_str(), flag) {
            return true;
        }
        i = i + 1;
    }
    false
}

/// Why a `download` command cannot run, and whether the command asked for
/// its outcome in JSON (so that the failure is reported in JSON too).
#[derive(Clone, Copy, PartialEq, Eq, Debug, Structural)]
pub enum CliError {
    MissingUrl { json_output: bool },
}

impl CliError {
    /// The text the worker prints for the error.
    pub fn message(&self) -> (r: String)
        ensures
            r@ == "Missing required argument: --url"@,
    {
        String::from_str("Missing required argument: --url")
    }
}

/// A `download` command: the download and whether to answer in JSON.
pub struct DownloadCommand {
    pub request: DownloadRequest,
    pub json_output: bool,
}

/// An option's value when it holds more than whitespace.
pub open spec fn non_blank(v: Option<Seq<char>>) -> Option<Seq<char>> {
    match v {
        Some(s) => if trim(s).len() > 0 {
            Some(s)
        } else {
            None
        },
        None => None,
    }
}

/// Whether an argument is `--json`.
pub open spec fn wants_json(args: Seq<Seq<char>>) -> bool {
    exists|i: int| 0 <= i < args.len() && #[trigger] args[i] == "--json"@
}

/// What a `download` command asks for: `--url`, which must not be blank;
/// `--target-filename`, else `download`; `--profile-name`, else the
/// configured default (blank values count as absent); and `--json`, which
/// also holds for the error.
pub open spec fn planned_command(args: Seq<Seq<char>>, default_profile: Seq<char>) -> Result<
    (Seq<char>, Seq<char>, Seq<char>, bool),
    CliError,
> {
    match non_blank(arg_value(args, "--url"@)) {
        None => Err(CliError::MissingUrl { json_output: wants_json(args) }),
        Some(url) => Ok(
            (
                url,
                match non_blank(arg_value(args, "--target-filename"@)) {
                    Some(t) => t,
                    None => "download"@,
                },
                match non_blank(arg_value(args, "--profile-name"@)) {
                    Some(p) => p,
                    None => default_profile,
                },
                wants_json(args),
            ),
        ),
    }
}

pub open spec fn command_view(r: Result<DownloadCommand, CliError>) -> Result<
    (Seq<char>, Seq<char>, Seq<char>, bool),
    CliError,
> {
    match r {
        Ok(c) => Ok(
            (c.request.url@, c.request.target_filename@, c.request.profile_name@, c.json_output),
        ),
        Err(e) => Err(e),
    }
}

fn blank(s: &String) -> (r: bool)
    ensures
        r == (trim(s@).len() == 0),
{
    let v = chars_of(s.as_str());
    let t = trim_chars(&v);
    t.len() == 0
}

fn non_blank_value(args: &[String], name: &str) -> (r: Option<String>)
    ensures
        (match r {
            Some(s) => Some(s@),
            None => None,
        }) == non_blank(arg_value(string_views(args@), name@)),
{
    match argument_value(args, name) {
        Some(v) => if blank(&v) {
            None
        } else {
            Some(v)
        },
        None => None,
    }
}

/// Reads the arguments that follow `download`.
pub fn plan_download_command(args: &[String], config: &AppConfig) -> (r: Result<
    DownloadCommand,
    CliError,
>)
    ensures
        command_view(r) == planned_command(string_views(args@), config.default_profile@),
{
    let json_output = has_flag(args, "--json");
    proof {
        let views = string_views(args@);
        if json_output {
            let i = choose|i: int| 0 <= i < args@.len() && #[trigger] args@[i]@ == "--json"@;
            assert(views[i] == "--json"@);
        } else {
            assert forall|i: int| 0 <= i < views.len() implies #[trigger] views[i] != "--json"@ by {
                assert(views[i] == args@[i]@);
            }
        }
    }
    let url = match non_blank_value(args, "--url") {
        Some(u) => u,
        None => {
            return Err(CliError::MissingUrl { json_output });
        },
    };
    let target_filename = match non_blank_value(args, "--target-filename") {
        Some(t) => t,
        None => String::from_str("download"),
    };
    let profile_name = match non_blank_value(args, "--profile-name") {
        Some(p) => p,
        None => config.default_profile.clone(),
    };
    Ok(
        DownloadCommand {
            request: DownloadRequest { url, target_filename, profile_name },
            json_output,
        },
    )
}

/// The usage text of the worker.
pub fn usage_text() -> (r: &'static str)
    ensures
        r@ == "Usage:\n  omni-downloader --mcp\n  omni-downloader download --url <media-url> [--target-filename <name>] [--profile-name <profile>] [--json]"@,
{
    "Usage:\n  omni-downloader --mcp\n  omni-downloader download --url <media-url> [--target-filename <name>] [--profile-name <profile>] [--json]"
}

} // verus!
