//! What can go wrong, and what to do about it.
//!
//! [`AppError`] is the closed set of failures; [`ErrorKind`] is its tag alone.
//! The recovery policy is a table over the tags: [`classify`] looks it up, and
//! [`DefaultErrorHandler`] applies it to an error. A [`Failure`] is what an
//! operation reports when all there is to say is a message.

use crate::text::{append_decimal, decimal};
use vstd::prelude::*;
use vstd::std_specs::convert::FromSpecImpl;
use vstd::string::*;

verus! {

/// `std::io::Error`, carried as it is: nothing is said of what it holds.
#[verifier::external_type_specification]
#[verifier::external_body]
pub struct ExIoError(std::io::Error);

/// `ibapi::Error`, the failure of the gateway client, carried as it is:
/// nothing is said of what it holds.
#[verifier::external_type_specification]
#[verifier::external_body]
pub struct ExGatewayError(ibapi::Error);

/// `anyhow::Error`, carried as it is: nothing is said of what it holds.
#[verifier::external_type_specification]
#[verifier::external_body]
pub struct ExAnyError(anyhow::Error);

/// A failure of the application, with its detail where it has one.
#[derive(Debug)]
pub enum AppError {
    ConnectionError(String),
    TwsApiError(String),
    ConfigError(String),
    TradingError(String),
    MarketDataError(String),
    OrderError(String),
    PositionError(String),
    InvalidSymbol(String),
    InsufficientFunds,
    MarketClosed,
    RateLimitExceeded,
    UserCancelled,
    IoError(std::io::Error),
    ParseError(String),
    /// The operation gave up after this many seconds.
    TimeoutError(u64),
    Unknown(String),
}

pub type AppResult<T> = Result<T, AppError>;

/// A failure that is its message: it has no kind, and its text carries no
/// label.
#[derive(Debug)]
pub struct Failure {
    message: String,
}

impl View for Failure {
    type V = Seq<char>;

    closed spec fn view(&self) -> Seq<char> {
        self.message@
    }
}

impl Failure {
    /// The failure that reads `message`.
    pub fn new(message: String) -> (failure: Self)
        ensures
            failure@ == message@,
    {
        Failure { message }
    }

    /// The text of this failure: the message, as it is.
    pub fn to_string(&self) -> (text: String)
        ensures
            text@ == self@,
    {
        self.message.clone()
    }

    /// The message, borrowed.
    pub fn message(&self) -> (message: &str)
        ensures
            message@ == self@,
    {
        self.message.as_str()
    }
}

/// The tag of an [`AppError`], without its detail.
#[derive(Debug, Clone, Copy, PartialEq, Eq, Structural)]
pub enum ErrorKind {
    Connection,
    TwsApi,
    Config,
    Trading,
    MarketData,
    Order,
    Position,
    InvalidSymbol,
    InsufficientFunds,
    MarketClosed,
    RateLimitExceeded,
    UserCancelled,
    Io,
    Parse,
    Timeout,
    Unknown,
}

/// What the caller should do after a failure.
#[derive(Debug, Clone, Copy, PartialEq, Eq, Structural)]
pub enum ErrorAction {
    Retry,
    /// Retry after this many seconds.
    RetryWithDelay(u64),
    Abort,
    Continue,
    Reconnect,
    AskUser,
}

/// The recovery policy: the action for each kind of failure. Four kinds have
/// an action of their own; every other kind aborts.
pub open spec fn policy(kind: ErrorKind) -> ErrorAction {
    match kind {
        ErrorKind::Connection => ErrorAction::Reconnect,
        ErrorKind::TwsApi => ErrorAction::RetryWithDelay(5),
        ErrorKind::RateLimitExceeded => ErrorAction::RetryWithDelay(60),
        ErrorKind::Timeout => ErrorAction::Retry,
        _ => ErrorAction::Abort,
    }
}

/// The text of an error of kind `kind` whose detail reads `detail`. The kinds
/// without a detail ignore it.
pub open spec fn describe(kind: ErrorKind, detail: Seq<char>) -> Seq<char> {
    match kind {
        ErrorKind::Connection => "Connection error: "@ + detail,
        ErrorKind::TwsApi => "TWS API error: "@ + detail,
        ErrorKind::Config => "Configuration error: "@ + detail,
        ErrorKind::Trading => "Trading error: "@ + detail,
        ErrorKind::MarketData => "Market data error: "@ + detail,
        ErrorKind::Order => "Order error: "@ + detail,
        ErrorKind::Position => "Position error: "@ + detail,
        ErrorKind::InvalidSymbol => "Invalid symbol: "@ + detail,
        ErrorKind::InsufficientFunds => "Insufficient funds"@,
        ErrorKind::MarketClosed => "Market closed"@,
        ErrorKind::RateLimitExceeded => "Rate limit exceeded"@,
        ErrorKind::UserCancelled => "User cancelled operation"@,
        ErrorKind::Io => "IO error: "@ + detail,
        ErrorKind::Parse => "Parse error: "@ + detail,
        ErrorKind::Timeout => "Timeout error: operation timed out after "@ + detail
            + " seconds"@,
        ErrorKind::Unknown => "Unknown error: "@ + detail,
    }
}

/// Looks the recovery action up in the policy table.
pub fn classify(kind: ErrorKind) -> (action: ErrorAction)
    ensures
        action == policy(kind),
{
    match kind {
        ErrorKind::Connection => ErrorAction::Reconnect,
        ErrorKind::TwsApi => ErrorAction::RetryWithDelay(5),
        ErrorKind::Config => ErrorAction::Abort,
        ErrorKind::Trading => ErrorAction::Abort,
        ErrorKind::MarketData => ErrorAction::Abort,
        ErrorKind::Order => ErrorAction::Abort,
        ErrorKind::Position => ErrorAction::Abort,
        ErrorKind::InvalidSymbol => ErrorAction::Abort,
        ErrorKind::InsufficientFunds => ErrorAction::Abort,
        ErrorKind::MarketClosed => ErrorAction::Abort,
        ErrorKind::RateLimitExceeded => ErrorAction::RetryWithDelay(60),
        ErrorKind::UserCancelled => ErrorAction::Abort,
        ErrorKind::Io => ErrorAction::Abort,
        ErrorKind::Parse => ErrorAction::Abort,
        ErrorKind::Timeout => ErrorAction::Retry,
        ErrorKind::Unknown => ErrorAction::Abort,
    }
}

/// Every kind that has no action of its own in the table aborts.
pub proof fn lemma_unlisted_kinds_abort(kind: ErrorKind)
    requires
        kind != ErrorKind::Connection,
        kind != ErrorKind::TwsApi,
        kind != ErrorKind::RateLimitExceeded,
        kind != ErrorKind::Timeout,
    ensures
        policy(kind) == ErrorAction::Abort,
{
}

/// The policy answers with one of five actions. It never asks to continue
/// or to consult the user, and where it asks to wait, it is for five seconds
/// or for sixty.
pub proof fn lemma_policy_actions(kind: ErrorKind)
    ensures
        policy(kind) == ErrorAction::Reconnect || policy(kind) == ErrorAction::Retry || policy(kind)
            == ErrorAction::Abort || policy(kind) == ErrorAction::RetryWithDelay(5) || policy(kind)
            == ErrorAction::RetryWithDelay(60),
        policy(kind) == ErrorAction::Reconnect <==> kind == ErrorKind::Connection,
        policy(kind) == ErrorAction::Retry <==> kind == ErrorKind::Timeout,
        policy(kind) == ErrorAction::RetryWithDelay(5) <==> kind == ErrorKind::TwsApi,
        policy(kind) == ErrorAction::RetryWithDelay(60) <==> kind == ErrorKind::RateLimitExceeded,
{
}

fn labelled(label: &str, detail: &str) -> (text: String)
    ensures
        text@ == label@ + detail@,
{
    let mut text = label.to_owned();
    text.append(detail);
    text
}

impl AppError {
    /// The tag of this error.
    pub open spec fn kind_spec(&self) -> ErrorKind {
        match self {
            AppError::ConnectionError(_) => ErrorKind::Connection,
            AppError::TwsApiError(_) => ErrorKind::TwsApi,
            AppError::ConfigError(_) => ErrorKind::Config,
            AppError::TradingError(_) => ErrorKind::Trading,
            AppError::MarketDataError(_) => ErrorKind::MarketData,
            AppError::OrderError(_) => ErrorKind::Order,
            AppError::PositionError(_) => ErrorKind::Position,
            AppError::InvalidSymbol(_) => ErrorKind::InvalidSymbol,
            AppError::InsufficientFunds => ErrorKind::InsufficientFunds,
            AppError::MarketClosed => ErrorKind::MarketClosed,
            AppError::RateLimitExceeded => ErrorKind::RateLimitExceeded,
            AppError::UserCancelled => ErrorKind::UserCancelled,
            AppError::IoError(_) => ErrorKind::Io,
            AppError::ParseError(_) => ErrorKind::Parse,
            AppError::TimeoutError(_) => ErrorKind::Timeout,
            AppError::Unknown(_) => ErrorKind::Unknown,
        }
    }

    /// The detail this error carries, as text: the string of the variants that
    /// hold one, the numeral of the seconds of a timeout, and nothing for the
    /// variants without a field. What an I/O failure reads is the operating
    /// system's to say, so for `IoError` this is left open.
    pub open spec fn detail(&self) -> Option<Seq<char>> {
        match self {
            AppError::ConnectionError(d) => Some(d@),
            AppError::TwsApiError(d) => Some(d@),
            AppError::ConfigError(d) => Some(d@),
            AppError::TradingError(d) => Some(d@),
            AppError::MarketDataError(d) => Some(d@),
            AppError::OrderError(d) => Some(d@),
            AppError::PositionError(d) => Some(d@),
            AppError::InvalidSymbol(d) => Some(d@),
            AppError::InsufficientFunds => Some(Seq::empty()),
            AppError::MarketClosed => Some(Seq::empty()),
            AppError::RateLimitExceeded => Some(Seq::empty()),
            AppError::UserCancelled => Some(Seq::empty()),
            AppError::IoError(_) => None,
            AppError::ParseError(d) => Some(d@),
            AppError::TimeoutError(secs) => Some(decimal(*secs as nat)),
            AppError::Unknown(d) => Some(d@),
        }
    }

    #[verifier::when_used_as_spec(kind_spec)]
    pub fn kind(&self) -> (kind: ErrorKind)
        ensures
            kind == self.kind_spec(),
    {
        match self {
            AppError::ConnectionError(_) => ErrorKind::Connection,
            AppError::TwsApiError(_) => ErrorKind::TwsApi,
            AppError::ConfigError(_) => ErrorKind::Config,
            AppError::TradingError(_) => ErrorKind::Trading,
            AppError::MarketDataError(_) => ErrorKind::MarketData,
            AppError::OrderError(_) => ErrorKind::Order,
            AppError::PositionError(_) => ErrorKind::Position,
            AppError::InvalidSymbol(_) => ErrorKind::InvalidSymbol,
            AppError::InsufficientFunds => ErrorKind::InsufficientFunds,
            AppError::MarketClosed => ErrorKind::MarketClosed,
            AppError::RateLimitExceeded => ErrorKind::RateLimitExceeded,
            AppError::UserCancelled => ErrorKind::UserCancelled,
            AppError::IoError(_) => ErrorKind::Io,
            AppError::ParseError(_) => ErrorKind::Parse,
            AppError::TimeoutError(_) => ErrorKind::Timeout,
            AppError::Unknown(_) => ErrorKind::Unknown,
        }
    }

    /// The text of this error: the label of its kind, then its detail. The
    /// detail of an `IoError` is the text of the error it holds.
    pub fn to_string(&self) -> (text: String)
        ensures
            match self {
                AppError::IoError(source) => exists|detail: String|
                    to_string_from_display_ensures::<std::io::Error>(source, detail) && text@
                        == describe(ErrorKind::Io, detail@),
                _ => Some(text@) == (match self.detail() {
                    Some(detail) => Some(describe(self.kind(), detail)),
                    None => None,
                }),
            },
    {
        match self {
            AppError::ConnectionError(d) => labelled("Connection error: ", d.as_str()),
            AppError::TwsApiError(d) => labelled("TWS API error: ", d.as_str()),
            AppError::ConfigError(d) => labelled("Configuration error: ", d.as_str()),
            AppError::TradingError(d) => labelled("Trading error: ", d.as_str()),
            AppError::MarketDataError(d) => labelled("Market data error: ", d.as_str()),
            AppError::OrderError(d) => labelled("Order error: ", d.as_str()),
            AppError::PositionError(d) => labelled("Position error: ", d.as_str()),
            AppError::InvalidSymbol(d) => labelled("Invalid symbol: ", d.as_str()),
            AppError::InsufficientFunds => "Insufficient funds".to_owned(),
            AppError::MarketClosed => "Market closed".to_owned(),
            AppError::RateLimitExceeded => "Rate limit exceeded".to_owned(),
            AppError::UserCancelled => "User cancelled operation".to_owned(),
            AppError::IoError(source) => {
                let detail = source.to_string();
                let text = labelled("IO error: ", detail.as_str());
                assert(to_string_from_display_ensures::<std::io::Error>(source, detail) && text@
                    == describe(ErrorKind::Io, detail@));
                text
            },
            AppError::ParseError(d) => labelled("Parse error: ", d.as_str()),
            AppError::TimeoutError(secs) => {
                let mut text = "Timeout error: operation timed out after ".to_owned();
                append_decimal(&mut text, *secs);
                text.append(" seconds");
                text
            },
            AppError::Unknown(d) => labelled("Unknown error: ", d.as_str()),
        }
    }
}

impl From<std::io::Error> for AppError {
    fn from(err: std::io::Error) -> (error: AppError) {
        AppError::IoError(err)
    }
}

impl FromSpecImpl<std::io::Error> for AppError {
    open spec fn obeys_from_spec() -> bool {
        true
    }

    open spec fn from_spec(err: std::io::Error) -> AppError {
        AppError::IoError(err)
    }
}

impl From<ibapi::Error> for AppError {
    /// A failure of the gateway client becomes a `TwsApiError` that carries
    /// the failure's own text.
    fn from(err: ibapi::Error) -> (error: AppError)
        ensures
            error matches AppError::TwsApiError(text) && to_string_from_display_ensures::<
                ibapi::Error,
            >(&err, text),
    {
        AppError::TwsApiError(err.to_string())
    }
}

impl FromSpecImpl<ibapi::Error> for AppError {
    open spec fn obeys_from_spec() -> bool {
        false
    }

    open spec fn from_spec(err: ibapi::Error) -> AppError {
        arbitrary()
    }
}

impl From<anyhow::Error> for AppError {
    /// A failure without a kind of its own becomes `Unknown`, with the
    /// failure's own text.
    fn from(err: anyhow::Error) -> (error: AppError)
        ensures
            error matches AppError::Unknown(text) && to_string_from_display_ensures::<
                anyhow::Error,
            >(&err, text),
    {
        AppError::Unknown(err.to_string())
    }
}

impl FromSpecImpl<anyhow::Error> for AppError {
    open spec fn obeys_from_spec() -> bool {
        false
    }

    open spec fn from_spec(err: anyhow::Error) -> AppError {
        arbitrary()
    }
}

impl From<Failure> for AppError {
    /// A failure without a kind of its own becomes `Unknown`, with the
    /// failure's message.
    fn from(failure: Failure) -> (error: AppError)
        ensures
            error matches AppError::Unknown(text) && text@ == failure@,
    {
        AppError::Unknown(failure.message)
    }
}

impl FromSpecImpl<Failure> for AppError {
    open spec fn obeys_from_spec() -> bool {
        false
    }

    open spec fn from_spec(failure: Failure) -> AppError {
        arbitrary()
    }
}

/// A recovery policy: decides what to do after an error.
pub trait ErrorHandler {
    fn handle_error(&self, error: &AppError) -> ErrorAction;
}

/// The policy of the table: the action depends on the error's kind alone.
pub struct DefaultErrorHandler;

impl ErrorHandler for DefaultErrorHandler {
    fn handle_error(&self, error: &AppError) -> (action: ErrorAction)
        ensures
            action == policy(error.kind()),
    {
        match error {
            AppError::ConnectionError(_) => ErrorAction::Reconnect,
            AppError::TwsApiError(_) => ErrorAction::RetryWithDelay(5),
            AppError::RateLimitExceeded => ErrorAction::RetryWithDelay(60),
            AppError::MarketClosed => ErrorAction::Abort,
            AppError::InsufficientFunds => ErrorAction::Abort,
            AppError::UserCancelled => ErrorAction::Abort,
            AppError::TimeoutError(_) => ErrorAction::Retry,
            _ => ErrorAction::Abort,
        }
    }
}

} // verus!
