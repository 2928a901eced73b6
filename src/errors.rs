use vstd::prelude::*;

use crate::keba_payload::ParseError;

verus! {

/// The kinds of transport failure that the poller tells apart.
#[derive(Debug, Clone, Copy, PartialEq, Eq, Structural)]
pub enum IoErrorKind {
    TimedOut,
    WouldBlock,
    HostUnreachable,
    NetworkUnreachable,
    ConnectionRefused,
    BrokenPipe,
    UnexpectedEof,
    InvalidData,
    InvalidInput,
    AddrNotAvailable,
    Other,
}

/// A failed charger request, with the underlying error's message.
#[derive(Debug, Clone, PartialEq, Eq)]
pub enum KebaClientError {
    Resolve(String),
    Io { kind: IoErrorKind, message: String },
    Json(String),
}

/// What the embedded store reported, as far as retries are concerned.
#[derive(Debug, Clone, Copy, PartialEq, Eq, Structural)]
pub enum SqliteErrorCode {
    DatabaseBusy,
    DatabaseLocked,
    Other,
}

#[derive(Debug, Clone, PartialEq, Eq)]
pub enum DbError {
    Sqlite { code: SqliteErrorCode, message: String },
    UnsupportedSchemaVersion { current: u32, latest: u32 },
}

#[derive(Debug, Clone, PartialEq, Eq)]
pub enum ServiceError {
    DbLockPoisoned,
    Database(DbError),
}

/// Why one poll cycle failed.
#[derive(Debug, Clone, PartialEq, Eq)]
pub enum PollerError {
    FetchReport2(KebaClientError),
    ParseReport2(ParseError),
    DbLockPoisoned,
    Database(DbError),
    ResultsIo(String),
}

/// A fatal startup or runtime failure.
#[derive(Debug, Clone, PartialEq, Eq)]
pub enum AppError {
    LoggingInit(String),
    Config(String),
    DatabaseInit(String),
    Runtime(String),
}

pub open spec fn digit_char(d: nat) -> char {
    ((d + 48) as u8) as char
}

/// The decimal digits of `n`.
pub open spec fn decimal_digits(n: nat) -> Seq<char>
    decreases n,
{
    if n < 10 {
        seq![digit_char(n)]
    } else {
        decimal_digits(n / 10).push(digit_char(n % 10))
    }
}

fn digit_str(d: u64) -> (r: &'static str)
    requires
        d < 10,
    ensures
        r@ == seq![digit_char(d as nat)],
{
    proof {
        reveal_strlit("0");
        reveal_strlit("1");
        reveal_strlit("2");
        reveal_strlit("3");
        reveal_strlit("4");
        reveal_strlit("5");
        reveal_strlit("6");
        reveal_strlit("7");
        reveal_strlit("8");
        reveal_strlit("9");
    }
    if d == 0 {
        "0"
    } else if d == 1 {
        "1"
    } else if d == 2 {
        "2"
    } else if d == 3 {
        "3"
    } else if d == 4 {
        "4"
    } else if d == 5 {
        "5"
    } else if d == 6 {
        "6"
    } else if d == 7 {
        "7"
    } else if d == 8 {
        "8"
    } else {
        "9"
    }
}

/// `n` written in decimal.
pub fn decimal_text(n: u64) -> (r: String)
    ensures
        r@ == decimal_digits(n as nat),
    decreases n,
{
    if n < 10 {
        String::from_str(digit_str(n))
    } else {
        let mut s = decimal_text(n / 10);
        s.append(digit_str(n % 10));
        s
    }
}

/// `prefix` followed by `rest`.
pub fn joined(prefix: &str, rest: &str) -> (r: String)
    ensures
        r@ == prefix@ + rest@,
{
    String::from_str(prefix).concat(rest)
}

pub open spec fn client_error_message(e: KebaClientError) -> Seq<char> {
    match e {
        KebaClientError::Resolve(m) => "failed to resolve KEBA endpoint: "@ + m@,
        KebaClientError::Io { message, .. } => "transport communication failed: "@ + message@,
        KebaClientError::Json(m) => "failed to parse KEBA response as JSON: "@ + m@,
    }
}

impl KebaClientError {
    pub fn to_string(&self) -> (r: String)
        ensures
            r@ == client_error_message(*self),
    {
        match self {
            KebaClientError::Resolve(m) => joined("failed to resolve KEBA endpoint: ", m.as_str()),
            KebaClientError::Io { message, .. } => joined("transport communication failed: ", message.as_str()),
            KebaClientError::Json(m) => joined("failed to parse KEBA response as JSON: ", m.as_str()),
        }
    }
}

pub open spec fn parse_error_message(e: ParseError) -> Seq<char> {
    match e {
        ParseError::InvalidPayloadType => "payload must be a JSON object"@,
        ParseError::MissingField(f) => "missing required field: "@ + f@,
    }
}

impl ParseError {
    pub fn to_string(&self) -> (r: String)
        ensures
            r@ == parse_error_message(*self),
    {
        match self {
            ParseError::InvalidPayloadType => String::from_str("payload must be a JSON object"),
            ParseError::MissingField(f) => joined("missing required field: ", f),
        }
    }
}

pub open spec fn db_error_message(e: DbError) -> Seq<char> {
    match e {
        DbError::Sqlite { message, .. } => "database operation failed: "@ + message@,
        DbError::UnsupportedSchemaVersion { current, latest } => "unsupported schema version "@
            + decimal_digits(current as nat) + "; latest supported is "@ + decimal_digits(latest as nat),
    }
}

impl DbError {
    pub fn to_string(&self) -> (r: String)
        ensures
            r@ == db_error_message(*self),
    {
        match self {
            DbError::Sqlite { message, .. } => joined("database operation failed: ", message.as_str()),
            DbError::UnsupportedSchemaVersion { current, latest } => {
                let mut s = String::from_str("unsupported schema version ");
                s.append(decimal_text(*current as u64).as_str());
                s.append("; latest supported is ");
                s.append(decimal_text(*latest as u64).as_str());
                s
            },
        }
    }
}

pub open spec fn poller_error_message(e: PollerError) -> Seq<char> {
    match e {
        PollerError::FetchReport2(c) => "failed to fetch report 2: "@ + client_error_message(c),
        PollerError::ParseReport2(p) => "failed to parse report 2: "@ + parse_error_message(p),
        PollerError::DbLockPoisoned => "database lock poisoned"@,
        PollerError::Database(d) => "database write failed: "@ + db_error_message(d),
        PollerError::ResultsIo(m) => "results file io failed: "@ + m@,
    }
}

impl PollerError {
    pub fn to_string(&self) -> (r: String)
        ensures
            r@ == poller_error_message(*self),
    {
        match self {
            PollerError::FetchReport2(c) => joined("failed to fetch report 2: ", c.to_string().as_str()),
            PollerError::ParseReport2(p) => joined("failed to parse report 2: ", p.to_string().as_str()),
            PollerError::DbLockPoisoned => String::from_str("database lock poisoned"),
            PollerError::Database(d) => joined("database write failed: ", d.to_string().as_str()),
            PollerError::ResultsIo(m) => joined("results file io failed: ", m.as_str()),
        }
    }
}

pub open spec fn poller_error_code_of(error: PollerError) -> Seq<char> {
    match error {
        PollerError::FetchReport2(_) => "poll.fetch_report2"@,
        PollerError::ParseReport2(_) => "poll.parse_report2"@,
        PollerError::DbLockPoisoned => "poll.db_lock_poisoned"@,
        PollerError::Database(_) => "poll.database"@,
        PollerError::ResultsIo(_) => "poll.results_io"@,
    }
}

/// The log event code under which a failed poll cycle is recorded.
pub fn poller_error_code(error: &PollerError) -> (r: &'static str)
    ensures
        r@ == poller_error_code_of(*error),
        r@ == match *error {
            PollerError::FetchReport2(_) => "poll.fetch_report2"@,
            PollerError::ParseReport2(_) => "poll.parse_report2"@,
            PollerError::DbLockPoisoned => "poll.db_lock_poisoned"@,
            PollerError::Database(_) => "poll.database"@,
            PollerError::ResultsIo(_) => "poll.results_io"@,
        },
{
    match error {
        PollerError::FetchReport2(_) => "poll.fetch_report2",
        PollerError::ParseReport2(_) => "poll.parse_report2",
        PollerError::DbLockPoisoned => "poll.db_lock_poisoned",
        PollerError::Database(_) => "poll.database",
        PollerError::ResultsIo(_) => "poll.results_io",
    }
}

pub open spec fn poller_error_of(error: ServiceError) -> PollerError {
    match error {
        ServiceError::DbLockPoisoned => PollerError::DbLockPoisoned,
        ServiceError::Database(d) => PollerError::Database(d),
    }
}

/// A storage failure as the poller reports it.
pub fn service_error_to_poller_error(error: ServiceError) -> (r: PollerError)
    ensures
        r == poller_error_of(error),
{
    match error {
        ServiceError::DbLockPoisoned => PollerError::DbLockPoisoned,
        ServiceError::Database(d) => PollerError::Database(d),
    }
}

/// Only a busy or locked store is worth another attempt; a poisoned lock never is.
pub fn is_retryable_db_contention(error: &ServiceError) -> (r: bool)
    ensures
        r == (*error matches ServiceError::Database(DbError::Sqlite { code, .. })
            && (code == SqliteErrorCode::DatabaseBusy || code == SqliteErrorCode::DatabaseLocked)),
{
    match error {
        ServiceError::Database(DbError::Sqlite { code, .. }) => match code {
            SqliteErrorCode::DatabaseBusy => true,
            SqliteErrorCode::DatabaseLocked => true,
            SqliteErrorCode::Other => false,
        },
        _ => false,
    }
}

/// The end of a replayed script: an unexpected end of input while fetching a plug report.
pub fn is_debug_replay_finished(error: &PollerError) -> (r: bool)
    ensures
        r == (*error matches PollerError::FetchReport2(KebaClientError::Io { kind, .. }) && kind == IoErrorKind::UnexpectedEof),
{
    match error {
        PollerError::FetchReport2(KebaClientError::Io { kind, .. }) => match kind {
            IoErrorKind::UnexpectedEof => true,
            _ => false,
        },
        _ => false,
    }
}

pub open spec fn app_error_message(e: AppError) -> Seq<char> {
    match e {
        AppError::LoggingInit(m) => "failed to initialize logging: "@ + m@,
        AppError::Config(m) => "invalid configuration: "@ + m@,
        AppError::DatabaseInit(m) => "database initialization failed: "@ + m@,
        AppError::Runtime(m) => "runtime failure: "@ + m@,
    }
}

impl AppError {
    pub fn logging_init(error: &str) -> (r: AppError)
        ensures
            r matches AppError::LoggingInit(m) && m@ == error@,
    {
        AppError::LoggingInit(String::from_str(error))
    }

    pub fn config(error: &str) -> (r: AppError)
        ensures
            r matches AppError::Config(m) && m@ == error@,
    {
        AppError::Config(String::from_str(error))
    }

    pub fn database_init(error: &str) -> (r: AppError)
        ensures
            r matches AppError::DatabaseInit(m) && m@ == error@,
    {
        AppError::DatabaseInit(String::from_str(error))
    }

    pub fn runtime(error: &str) -> (r: AppError)
        ensures
            r matches AppError::Runtime(m) && m@ == error@,
    {
        AppError::Runtime(String::from_str(error))
    }

    pub fn to_string(&self) -> (r: String)
        ensures
            r@ == app_error_message(*self),
    {
        match self {
            AppError::LoggingInit(m) => joined("failed to initialize logging: ", m.as_str()),
            AppError::Config(m) => joined("invalid configuration: ", m.as_str()),
            AppError::DatabaseInit(m) => joined("database initialization failed: ", m.as_str()),
            AppError::Runtime(m) => joined("runtime failure: ", m.as_str()),
        }
    }
}

} // verus!
