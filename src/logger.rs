use vstd::prelude::*;

use crate::json::{json_quoted, quote};

verus! {

/// The kinds of failure reported to the error-collection endpoint.
#[derive(Debug, Clone, Copy, PartialEq, Eq, Structural)]
pub enum ErrorType {
    InvalidPwd,
    NoEnvFile,
    GitChanges,
    NoGit,
    DeleteTmpAppTar,
    InvalidDefaultAnycloudAlias,
    DeployNotFound,
    InvalidCredentialsFile,
    InvalidAnycloudFile,
    InvalidDefaultCredentialAlias,
    InvalidCredentialAlias,
    AuthFailed,
    NoDnsVms,
    PostStats,
    NoClusterSecret,
    NoDns,
    NoPrivateIp,
    NoDnsPrivateIp,
    ScaleFailed,
    PostFailed,
    RunAgzFailed,
}

/// The numeric identifier of each kind of failure.
pub open spec fn error_code(e: ErrorType) -> u8 {
    match e {
        ErrorType::InvalidPwd => 100,
        ErrorType::NoEnvFile => 101,
        ErrorType::GitChanges => 102,
        ErrorType::NoGit => 103,
        ErrorType::DeleteTmpAppTar => 104,
        ErrorType::InvalidDefaultAnycloudAlias => 105,
        ErrorType::DeployNotFound => 106,
        ErrorType::InvalidCredentialsFile => 108,
        ErrorType::InvalidAnycloudFile => 110,
        ErrorType::InvalidDefaultCredentialAlias => 111,
        ErrorType::InvalidCredentialAlias => 112,
        ErrorType::AuthFailed => 113,
        ErrorType::NoDnsVms => 114,
        ErrorType::PostStats => 115,
        ErrorType::NoClusterSecret => 116,
        ErrorType::NoDns => 117,
        ErrorType::NoPrivateIp => 118,
        ErrorType::NoDnsPrivateIp => 119,
        ErrorType::ScaleFailed => 120,
        ErrorType::PostFailed => 121,
        ErrorType::RunAgzFailed => 122,
    }
}

impl ErrorType {
    /// The numeric identifier sent to the error-collection endpoint.
    pub fn code(&self) -> (r: u8)
        ensures
            r == error_code(*self),
    {
        match self {
            ErrorType::InvalidPwd => 100,
            ErrorType::NoEnvFile => 101,
            ErrorType::GitChanges => 102,
            ErrorType::NoGit => 103,
            ErrorType::DeleteTmpAppTar => 104,
            ErrorType::InvalidDefaultAnycloudAlias => 105,
            ErrorType::DeployNotFound => 106,
            ErrorType::InvalidCredentialsFile => 108,
            ErrorType::InvalidAnycloudFile => 110,
            ErrorType::InvalidDefaultCredentialAlias => 111,
            ErrorType::InvalidCredentialAlias => 112,
            ErrorType::AuthFailed => 113,
            ErrorType::NoDnsVms => 114,
            ErrorType::PostStats => 115,
            ErrorType::NoClusterSecret => 116,
            ErrorType::NoDns => 117,
            ErrorType::NoPrivateIp => 118,
            ErrorType::NoDnsPrivateIp => 119,
            ErrorType::ScaleFailed => 120,
            ErrorType::PostFailed => 121,
            ErrorType::RunAgzFailed => 122,
        }
    }
}

/// The severity of a log record, most severe first.
#[derive(Debug, Clone, Copy, PartialEq, Eq, Structural)]
pub enum Level {
    Error,
    Warn,
    Info,
    Debug,
    Trace,
}

/// The rank of a severity: 1 for errors up to 5 for traces.
pub open spec fn level_rank(l: Level) -> nat {
    match l {
        Level::Error => 1,
        Level::Warn => 2,
        Level::Info => 3,
        Level::Debug => 4,
        Level::Trace => 5,
    }
}

/// The name under which a severity is written.
pub open spec fn level_name(l: Level) -> Seq<char> {
    match l {
        Level::Error => "ERROR"@,
        Level::Warn => "WARN"@,
        Level::Info => "INFO"@,
        Level::Debug => "DEBUG"@,
        Level::Trace => "TRACE"@,
    }
}

fn level_text(l: Level) -> (r: String)
    ensures
        r@ == level_name(l),
{
    match l {
        Level::Error => String::from_str("ERROR"),
        Level::Warn => String::from_str("WARN"),
        Level::Info => String::from_str("INFO"),
        Level::Debug => String::from_str("DEBUG"),
        Level::Trace => String::from_str("TRACE"),
    }
}

/// Whether a record of this severity is kept: informational or more severe.
pub fn keeps(level: Level) -> (r: bool)
    ensures
        r == (level_rank(level) <= level_rank(Level::Info)),
{
    match level {
        Level::Error | Level::Warn | Level::Info => true,
        _ => false,
    }
}

/// A log record: when, how severe, where from, and what.
#[derive(Debug, Clone)]
pub struct LogRecord {
    pub utc_time: String,
    pub level: Level,
    pub env: String,
    pub cluster: String,
    pub message: String,
}

/// The JSON document sent to a log ingestion service for a record.
pub open spec fn record_json(r: LogRecord) -> Seq<char> {
    "{\"utc_time\":"@ + json_quoted(r.utc_time@) + ",\"level\":"@ + json_quoted(level_name(r.level))
        + ",\"env\":"@ + json_quoted(r.env@) + ",\"cluster\":"@ + json_quoted(r.cluster@)
        + ",\"message\":"@ + json_quoted(r.message@) + "}"@
}

fn record_to_json(r: &LogRecord) -> (out: String)
    ensures
        out@ == record_json(*r),
{
    let mut s = String::from_str("{\"utc_time\":");
    s.append(quote(r.utc_time.as_str()).as_str());
    s.append(",\"level\":");
    s.append(quote(level_text(r.level).as_str()).as_str());
    s.append(",\"env\":");
    s.append(quote(r.env.as_str()).as_str());
    s.append(",\"cluster\":");
    s.append(quote(r.cluster.as_str()).as_str());
    s.append(",\"message\":");
    s.append(quote(r.message.as_str()).as_str());
    s.append("}");
    s
}

/// The log sink that ships records to Logz.io.
#[derive(Debug, Clone, Copy)]
pub struct LogzIO;

/// The log sink that ships records to Sematext.
#[derive(Debug, Clone, Copy)]
pub struct Sematext;

/// The log sink that prints records on the terminal.
#[derive(Debug, Clone, Copy)]
pub struct SimpleLogger;

impl LogzIO {
    /// Whether a record of this severity is shipped.
    pub fn enabled(&self, level: Level) -> (r: bool)
        ensures
            r == (level_rank(level) <= level_rank(Level::Info)),
    {
        keeps(level)
    }

    /// The document shipped for a record.
    pub fn document(&self, record: &LogRecord) -> (r: String)
        ensures
            r@ == record_json(*record),
    {
        record_to_json(record)
    }
}

impl Sematext {
    /// Whether a record of this severity is shipped.
    pub fn enabled(&self, level: Level) -> (r: bool)
        ensures
            r == (level_rank(level) <= level_rank(Level::Info)),
    {
        keeps(level)
    }

    /// The document indexed for a record.
    pub fn document(&self, record: &LogRecord) -> (r: String)
        ensures
            r@ == record_json(*record),
    {
        record_to_json(record)
    }
}

/// The line printed for a record: its fields separated by bars.
pub open spec fn record_line(r: LogRecord) -> Seq<char> {
    r.utc_time@ + " | "@ + level_name(r.level) + " | "@ + r.env@ + " | "@ + r.cluster@ + " | "@
        + r.message@
}

impl SimpleLogger {
    /// Whether a record of this severity is printed.
    pub fn enabled(&self, level: Level) -> (r: bool)
        ensures
            r == (level_rank(level) <= level_rank(Level::Info)),
    {
        keeps(level)
    }

    /// The line printed for a record, and whether it goes to the error stream (exactly
    /// for errors).
    pub fn line(&self, record: &LogRecord) -> (r: (String, bool))
        ensures
            r.0@ == record_line(*record),
            r.1 == (record.level == Level::Error),
    {
        let mut s = record.utc_time.clone();
        s.append(" | ");
        s.append(level_text(record.level).as_str());
        s.append(" | ");
        s.append(record.env.as_str());
        s.append(" | ");
        s.append(record.cluster.as_str());
        s.append(" | ");
        s.append(record.message.as_str());
        let to_stderr = match record.level {
            Level::Error => true,
            _ => false,
        };
        (s, to_stderr)
    }
}

} // verus!
