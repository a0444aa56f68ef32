//! Domain errors: failures of the gateways, the AI analyzer, the database and
//! the task queue, with their retry classification and their messages.

use vstd::prelude::*;
use crate::text::{decimal, decimal_int, i64_to_decimal, push_str, to_owned_string, u64_to_decimal};

verus! {

/// Main workflow error type.
#[derive(Debug)]
pub enum WorkflowError {
    /// Error from a content gateway.
    Gateway(GatewayError),
    /// Error from the AI analyzer.
    Ai(AiError),
    /// Error from database operations.
    Database(DbError),
    /// Error from the task queue.
    Queue(QueueError),
    /// Configuration error.
    Config(String),
    /// Platform not supported.
    UnsupportedPlatform(String),
    /// Task was cancelled or stopped.
    Cancelled(String),
    /// Task timeout (milliseconds).
    Timeout(u64),
    /// Invalid task data.
    InvalidTask(String),
}

/// Gateway errors (content and comment fetching).
#[derive(Debug)]
pub enum GatewayError {
    /// HTTP/network error.
    Network(String),
    /// The API returned an error response.
    Api { code: i32, message: String },
    /// Rate limited by the API.
    RateLimited { retry_after_secs: Option<u64> },
    /// Authentication failed.
    AuthFailed(String),
    /// No data returned from the API.
    EmptyResponse,
    /// Failed to parse the API response.
    ParseError(String),
    /// Invalid parameters provided.
    InvalidParams(String),
    /// Content not found.
    NotFound(String),
}

/// AI analyzer errors.
#[derive(Debug)]
pub enum AiError {
    Network(String),
    ServiceError(String),
    RateLimited,
    ParseError(String),
    InvalidInput(String),
    TokenLimitExceeded { used: i32, limit: i32 },
    ModelUnavailable(String),
    ContentFiltered(String),
}

/// Database errors.
#[derive(Debug)]
pub enum DbError {
    Connection(String),
    Query(String),
    NotFound(String),
    Duplicate(String),
    Constraint(String),
    Transaction(String),
    PoolExhausted,
    Serialization(String),
}

/// Queue errors (task queue).
#[derive(Debug)]
pub enum QueueError {
    Connection(String),
    Deserialization(String),
    Serialization(String),
    Empty,
    AckFailed(String),
    TaskNotFound(String),
}

// ------------------------------------------------------------------
// Retry classification
// ------------------------------------------------------------------

pub open spec fn gateway_retryable(e: GatewayError) -> bool {
    e is Network || e is RateLimited
}

pub open spec fn ai_retryable(e: AiError) -> bool {
    e is Network || e is RateLimited || e is ServiceError
}

pub open spec fn db_retryable(e: DbError) -> bool {
    e is Connection || e is PoolExhausted || e is Transaction
}

pub open spec fn queue_retryable(e: QueueError) -> bool {
    e is Connection
}

impl GatewayError {
    /// Whether the error is transient: network failures and rate limiting.
    pub fn is_retryable(&self) -> (r: bool)
        ensures
            r == gateway_retryable(*self),
    {
        match self {
            GatewayError::Network(_) | GatewayError::RateLimited { .. } => true,
            _ => false,
        }
    }

    /// Whether this is a rate-limit error.
    pub fn is_rate_limited(&self) -> (r: bool)
        ensures
            r == (*self is RateLimited),
    {
        match self {
            GatewayError::RateLimited { .. } => true,
            _ => false,
        }
    }
}

impl AiError {
    /// Whether the error is transient: network, rate limiting, service errors.
    pub fn is_retryable(&self) -> (r: bool)
        ensures
            r == ai_retryable(*self),
    {
        match self {
            AiError::Network(_) | AiError::RateLimited | AiError::ServiceError(_) => true,
            _ => false,
        }
    }
}

impl DbError {
    /// Whether the error is transient: connection, pool exhaustion, transactions.
    pub fn is_retryable(&self) -> (r: bool)
        ensures
            r == db_retryable(*self),
    {
        match self {
            DbError::Connection(_) | DbError::PoolExhausted | DbError::Transaction(_) => true,
            _ => false,
        }
    }
}

impl QueueError {
    /// Whether the error is transient: only connection failures.
    pub fn is_retryable(&self) -> (r: bool)
        ensures
            r == queue_retryable(*self),
    {
        match self {
            QueueError::Connection(_) => true,
            _ => false,
        }
    }
}

// ------------------------------------------------------------------
// Messages
// ------------------------------------------------------------------

/// `prefix + body` as an owned string.
pub fn join2(prefix: &str, body: &str) -> (r: String)
    ensures
        r@ == prefix@ + body@,
{
    let mut r = String::new();
    push_str(&mut r, prefix);
    push_str(&mut r, body);
    proof {
        assert(r@ =~= prefix@ + body@);
    }
    r
}

/// `a + b + c` as an owned string.
pub fn join3(a: &str, b: &str, c: &str) -> (r: String)
    ensures
        r@ == a@ + b@ + c@,
{
    let mut r = join2(a, b);
    push_str(&mut r, c);
    r
}

/// Rendering of `Option<u64>` with `{:?}`.
pub open spec fn debug_opt_u64(o: Option<u64>) -> Seq<char> {
    match o {
        Some(x) => "Some("@ + decimal(x as nat) + ")"@,
        None => "None"@,
    }
}

/// `{:?}` of an `Option<u64>`.
pub fn debug_opt_u64_string(o: Option<u64>) -> (r: String)
    ensures
        r@ == debug_opt_u64(o),
{
    match o {
        Some(x) => {
            let d = u64_to_decimal(x);
            join3("Some(", d.as_str(), ")")
        },
        None => to_owned_string("None"),
    }
}

pub open spec fn gateway_message(e: GatewayError) -> Seq<char> {
    match e {
        GatewayError::Network(s) => "Network error: "@ + s@,
        GatewayError::Api { code, message } => "API error (code="@ + decimal_int(code as int)
            + "): "@ + message@,
        GatewayError::RateLimited { retry_after_secs } => "Rate limited, retry after "@
            + debug_opt_u64(retry_after_secs) + " seconds"@,
        GatewayError::AuthFailed(s) => "Authentication failed: "@ + s@,
        GatewayError::EmptyResponse => "Empty response from API"@,
        GatewayError::ParseError(s) => "Failed to parse response: "@ + s@,
        GatewayError::InvalidParams(s) => "Invalid parameters: "@ + s@,
        GatewayError::NotFound(s) => "Content not found: "@ + s@,
    }
}

pub open spec fn ai_message(e: AiError) -> Seq<char> {
    match e {
        AiError::Network(s) => "Network error: "@ + s@,
        AiError::ServiceError(s) => "AI service error: "@ + s@,
        AiError::RateLimited => "AI rate limited"@,
        AiError::ParseError(s) => "Failed to parse AI response: "@ + s@,
        AiError::InvalidInput(s) => "Invalid input: "@ + s@,
        AiError::TokenLimitExceeded { used, limit } => "Token limit exceeded: "@ + decimal_int(
            used as int,
        ) + " > "@ + decimal_int(limit as int),
        AiError::ModelUnavailable(s) => "Model not available: "@ + s@,
        AiError::ContentFiltered(s) => "Content filtered: "@ + s@,
    }
}

pub open spec fn db_message(e: DbError) -> Seq<char> {
    match e {
        DbError::Connection(s) => "Connection error: "@ + s@,
        DbError::Query(s) => "Query error: "@ + s@,
        DbError::NotFound(s) => "Record not found: "@ + s@,
        DbError::Duplicate(s) => "Duplicate record: "@ + s@,
        DbError::Constraint(s) => "Constraint violation: "@ + s@,
        DbError::Transaction(s) => "Transaction error: "@ + s@,
        DbError::PoolExhausted => "Connection pool exhausted"@,
        DbError::Serialization(s) => "Serialization error: "@ + s@,
    }
}

pub open spec fn queue_message(e: QueueError) -> Seq<char> {
    match e {
        QueueError::Connection(s) => "Queue connection error: "@ + s@,
        QueueError::Deserialization(s) => "Failed to deserialize task: "@ + s@,
        QueueError::Serialization(s) => "Failed to serialize result: "@ + s@,
        QueueError::Empty => "Queue is empty"@,
        QueueError::AckFailed(s) => "Task acknowledgment failed: "@ + s@,
        QueueError::TaskNotFound(s) => "Task not found: "@ + s@,
    }
}

pub open spec fn workflow_message(e: WorkflowError) -> Seq<char> {
    match e {
        WorkflowError::Gateway(g) => "Content gateway error: "@ + gateway_message(g),
        WorkflowError::Ai(a) => "AI analysis error: "@ + ai_message(a),
        WorkflowError::Database(d) => "Database error: "@ + db_message(d),
        WorkflowError::Queue(q) => "Queue error: "@ + queue_message(q),
        WorkflowError::Config(s) => "Configuration error: "@ + s@,
        WorkflowError::UnsupportedPlatform(s) => "Unsupported platform: "@ + s@,
        WorkflowError::Cancelled(s) => "Task cancelled: "@ + s@,
        WorkflowError::Timeout(ms) => "Task timeout after "@ + decimal(ms as nat) + "ms"@,
        WorkflowError::InvalidTask(s) => "Invalid task data: "@ + s@,
    }
}

impl GatewayError {
    /// The error's message.
    pub fn message(&self) -> (r: String)
        ensures
            r@ == gateway_message(*self),
    {
        match self {
            GatewayError::Network(s) => join2("Network error: ", s.as_str()),
            GatewayError::Api { code, message } => {
                let c = i64_to_decimal(*code as i64);
                let mut r = join3("API error (code=", c.as_str(), "): ");
                push_str(&mut r, message.as_str());
                r
            },
            GatewayError::RateLimited { retry_after_secs } => {
                let d = debug_opt_u64_string(*retry_after_secs);
                join3("Rate limited, retry after ", d.as_str(), " seconds")
            },
            GatewayError::AuthFailed(s) => join2("Authentication failed: ", s.as_str()),
            GatewayError::EmptyResponse => to_owned_string("Empty response from API"),
            GatewayError::ParseError(s) => join2("Failed to parse response: ", s.as_str()),
            GatewayError::InvalidParams(s) => join2("Invalid parameters: ", s.as_str()),
            GatewayError::NotFound(s) => join2("Content not found: ", s.as_str()),
        }
    }
}

impl AiError {
    /// The error's message.
    pub fn message(&self) -> (r: String)
        ensures
            r@ == ai_message(*self),
    {
        match self {
            AiError::Network(s) => join2("Network error: ", s.as_str()),
            AiError::ServiceError(s) => join2("AI service error: ", s.as_str()),
            AiError::RateLimited => to_owned_string("AI rate limited"),
            AiError::ParseError(s) => join2("Failed to parse AI response: ", s.as_str()),
            AiError::InvalidInput(s) => join2("Invalid input: ", s.as_str()),
            AiError::TokenLimitExceeded { used, limit } => {
                let u = i64_to_decimal(*used as i64);
                let l = i64_to_decimal(*limit as i64);
                let mut r = join3("Token limit exceeded: ", u.as_str(), " > ");
                push_str(&mut r, l.as_str());
                r
            },
            AiError::ModelUnavailable(s) => join2("Model not available: ", s.as_str()),
            AiError::ContentFiltered(s) => join2("Content filtered: ", s.as_str()),
        }
    }
}

impl DbError {
    /// The error's message.
    pub fn message(&self) -> (r: String)
        ensures
            r@ == db_message(*self),
    {
        match self {
            DbError::Connection(s) => join2("Connection error: ", s.as_str()),
            DbError::Query(s) => join2("Query error: ", s.as_str()),
            DbError::NotFound(s) => join2("Record not found: ", s.as_str()),
            DbError::Duplicate(s) => join2("Duplicate record: ", s.as_str()),
            DbError::Constraint(s) => join2("Constraint violation: ", s.as_str()),
            DbError::Transaction(s) => join2("Transaction error: ", s.as_str()),
            DbError::PoolExhausted => to_owned_string("Connection pool exhausted"),
            DbError::Serialization(s) => join2("Serialization error: ", s.as_str()),
        }
    }
}

impl QueueError {
    /// The error's message.
    pub fn message(&self) -> (r: String)
        ensures
            r@ == queue_message(*self),
    {
        match self {
            QueueError::Connection(s) => join2("Queue connection error: ", s.as_str()),
            QueueError::Deserialization(s) => join2("Failed to deserialize task: ", s.as_str()),
            QueueError::Serialization(s) => join2("Failed to serialize result: ", s.as_str()),
            QueueError::Empty => to_owned_string("Queue is empty"),
            QueueError::AckFailed(s) => join2("Task acknowledgment failed: ", s.as_str()),
            QueueError::TaskNotFound(s) => join2("Task not found: ", s.as_str()),
        }
    }
}

impl WorkflowError {
    /// The error's message; a wrapped error's message follows its prefix.
    pub fn message(&self) -> (r: String)
        ensures
            r@ == workflow_message(*self),
    {
        match self {
            WorkflowError::Gateway(g) => {
                let m = g.message();
                join2("Content gateway error: ", m.as_str())
            },
            WorkflowError::Ai(a) => {
                let m = a.message();
                join2("AI analysis error: ", m.as_str())
            },
            WorkflowError::Database(d) => {
                let m = d.message();
                join2("Database error: ", m.as_str())
            },
            WorkflowError::Queue(q) => {
                let m = q.message();
                join2("Queue error: ", m.as_str())
            },
            WorkflowError::Config(s) => join2("Configuration error: ", s.as_str()),
            WorkflowError::UnsupportedPlatform(s) => join2("Unsupported platform: ", s.as_str()),
            WorkflowError::Cancelled(s) => join2("Task cancelled: ", s.as_str()),
            WorkflowError::Timeout(ms) => {
                let d = u64_to_decimal(*ms);
                join3("Task timeout after ", d.as_str(), "ms")
            },
            WorkflowError::InvalidTask(s) => join2("Invalid task data: ", s.as_str()),
        }
    }
}

// ------------------------------------------------------------------
// Conversions into the workflow error
// ------------------------------------------------------------------

impl From<GatewayError> for WorkflowError {
    fn from(err: GatewayError) -> (r: WorkflowError) {
        WorkflowError::Gateway(err)
    }
}

impl vstd::std_specs::convert::FromSpecImpl<GatewayError> for WorkflowError {
    open spec fn obeys_from_spec() -> bool {
        true
    }

    open spec fn from_spec(v: GatewayError) -> WorkflowError {
        WorkflowError::Gateway(v)
    }
}

impl From<AiError> for WorkflowError {
    fn from(err: AiError) -> (r: WorkflowError) {
        WorkflowError::Ai(err)
    }
}

impl vstd::std_specs::convert::FromSpecImpl<AiError> for WorkflowError {
    open spec fn obeys_from_spec() -> bool {
        true
    }

    open spec fn from_spec(v: AiError) -> WorkflowError {
        WorkflowError::Ai(v)
    }
}

impl From<DbError> for WorkflowError {
    fn from(err: DbError) -> (r: WorkflowError) {
        WorkflowError::Database(err)
    }
}

impl vstd::std_specs::convert::FromSpecImpl<DbError> for WorkflowError {
    open spec fn obeys_from_spec() -> bool {
        true
    }

    open spec fn from_spec(v: DbError) -> WorkflowError {
        WorkflowError::Database(v)
    }
}

impl From<QueueError> for WorkflowError {
    fn from(err: QueueError) -> (r: WorkflowError) {
        WorkflowError::Queue(err)
    }
}

impl vstd::std_specs::convert::FromSpecImpl<QueueError> for WorkflowError {
    open spec fn obeys_from_spec() -> bool {
        true
    }

    open spec fn from_spec(v: QueueError) -> WorkflowError {
        WorkflowError::Queue(v)
    }
}

} // verus!
