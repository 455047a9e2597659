//! Client-side supervision of one connection to a trading gateway.
//!
//! The crate holds the decisions of the supervisor: the retry schedule with
//! capped exponential backoff, the connection state machine, and the policy
//! that maps an error to a recovery action. Waiting and talking to the gateway
//! are left to the caller, who performs each step the supervisor hands out and
//! reports what came of it.

pub mod backoff;
pub mod config;
pub mod connection;
pub mod delay;
pub mod error;
pub mod model;
pub mod schedule;
pub mod text;

pub use config::{EnvTexts, LoggingConfig, Settings, TwsConfig, UiConfig};
pub use connection::{ConnectStep, ConnectionConfig, ConnectionManager, ConnectionStatus, RetryState};
pub use error::{
    AppError, AppResult, DefaultErrorHandler, ErrorAction, ErrorHandler, ErrorKind, Failure,
};
pub use model::HealthStep;
