use vstd::prelude::*;
use vstd::string::StrSliceExecFns;
use vstd::string::StringExecFns;

verus! {

/// How a completed transfer ended.
#[derive(Clone, Copy, PartialEq, Eq, Structural, Debug)]
pub enum DownloadOutcome {
    Success,
    UpToDate,
    Failed,
}

/// A transfer notification. Only completions are ever reported; everything
/// that happens while a transfer is still running is discarded.
#[derive(Clone, Copy, PartialEq, Eq, Structural, Debug)]
pub enum DownloadEvent {
    InProgress,
    Completed { outcome: DownloadOutcome },
}

/// A session lifecycle notification. Only a missing database file earns a
/// remediation hint; everything else is discarded.
#[derive(Clone, PartialEq, Eq, Debug)]
pub enum LifecycleEvent {
    DatabaseMissing { dbname: String },
    Other,
}

/// Severity of a session log message.
#[derive(Clone, Copy, PartialEq, Eq, Structural, Debug)]
pub enum LogSeverity {
    Error,
    Warning,
    Debug,
    Function,
}

/// The name ends in the detached-signature suffix `.sig`: such files are
/// secondary fetches and never reported.
pub open spec fn is_sig_name(s: Seq<char>) -> bool {
    s.len() >= 4 && s[s.len() - 4] == '.' && s[s.len() - 3] == 's' && s[s.len() - 2] == 'i'
        && s[s.len() - 1] == 'g'
}

pub fn ends_with_sig(file: &str) -> (r: bool)
    ensures
        r == is_sig_name(file@),
{
    let l = file.unicode_len();
    if l < 4 {
        return false;
    }
    file.get_char(l - 4) == '.' && file.get_char(l - 3) == 's' && file.get_char(l - 2) == 'i'
        && file.get_char(l - 1) == 'g'
}

/// The diagnostic line owed for a transfer notification, if any: nothing
/// for detached signatures or for transfers still in progress, and one line
/// naming the file and its outcome for each completion.
pub open spec fn spec_download_line(file: Seq<char>, ev: DownloadEvent) -> Option<Seq<char>> {
    if is_sig_name(file) {
        None
    } else {
        match ev {
            DownloadEvent::InProgress => None,
            DownloadEvent::Completed { outcome } => match outcome {
                DownloadOutcome::Success => Some(file + " downloaded"@),
                DownloadOutcome::UpToDate => Some(file + " is up to date"@),
                DownloadOutcome::Failed => Some(file + " failed to download"@),
            },
        }
    }
}

pub fn download_report(file: &str, ev: DownloadEvent) -> (r: Option<String>)
    ensures
        r is None <==> spec_download_line(file@, ev) is None,
        r matches Some(line) ==> spec_download_line(file@, ev) == Some(line@),
{
    if ends_with_sig(file) {
        return None;
    }
    match ev {
        DownloadEvent::InProgress => None,
        DownloadEvent::Completed { outcome } => {
            let mut out = file.to_owned();
            match outcome {
                DownloadOutcome::Success => out.append(" downloaded"),
                DownloadOutcome::UpToDate => out.append(" is up to date"),
                DownloadOutcome::Failed => out.append(" failed to download"),
            }
            Some(out)
        },
    }
}

/// The diagnostic line owed for a log message: only warnings and errors
/// surface, each prefixed with its severity; all else is silent.
pub open spec fn spec_log_line(level: LogSeverity, msg: Seq<char>) -> Option<Seq<char>> {
    match level {
        LogSeverity::Warning => Some("warning: "@ + msg),
        LogSeverity::Error => Some("error: "@ + msg),
        _ => None,
    }
}

pub fn log_report(level: LogSeverity, msg: &str) -> (r: Option<String>)
    ensures
        r is None <==> spec_log_line(level, msg@) is None,
        r matches Some(line) ==> spec_log_line(level, msg@) == Some(line@),
{
    match level {
        LogSeverity::Warning => {
            let mut out = "warning: ".to_owned();
            out.append(msg);
            Some(out)
        },
        LogSeverity::Error => {
            let mut out = "error: ".to_owned();
            out.append(msg);
            Some(out)
        },
        _ => None,
    }
}

/// The diagnostic line owed for a lifecycle notification: a remediation
/// hint naming a missing database file, and nothing else.
pub open spec fn spec_event_line(ev: LifecycleEvent) -> Option<Seq<char>> {
    match ev {
        LifecycleEvent::DatabaseMissing { dbname } => Some(
            "database file for "@ + dbname@ + " does not exist (use pacman to download)"@,
        ),
        LifecycleEvent::Other => None,
    }
}

pub fn event_report(ev: &LifecycleEvent) -> (r: Option<String>)
    ensures
        r is None <==> spec_event_line(*ev) is None,
        r matches Some(line) ==> spec_event_line(*ev) == Some(line@),
{
    match ev {
        LifecycleEvent::DatabaseMissing { dbname } => {
            let mut out = "database file for ".to_owned();
            out.append(dbname.as_str());
            out.append(" does not exist (use pacman to download)");
            Some(out)
        },
        LifecycleEvent::Other => None,
    }
}

} // verus!
