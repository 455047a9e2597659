//! The connection supervisor: configuration, status, and the operations that
//! move it from one state to the next.
//!
//! The supervisor neither sleeps nor talks to the gateway. `connect` and
//! `reconnect` return a [`ConnectStep`] that says what is to be done; the
//! caller does it and reports with `attempt_succeeded` or `attempt_failed`,
//! which returns the next step. `health_check` says whether the gateway is to
//! be asked, and `probe_finished` takes the answer.

use crate::backoff::next_delay;
use crate::delay::{duration_nanos, no_longer, seconds};
use crate::error::Failure;
use crate::model::{
    exhausted_message, health_failure_message, ConfigModel, HealthStep, ManagerModel, RetryModel,
    StatusModel, StepModel, SETTLE_DELAY_SECS,
};
use crate::text::append_decimal;
use std::time::Duration;
use vstd::prelude::*;
use vstd::string::*;

verus! {

/// Where to connect, as whom, and how patiently.
#[derive(Debug)]
pub struct ConnectionConfig {
    pub host: String,
    pub port: u16,
    /// Tells this session from others at the gateway.
    pub client_id: i32,
    /// How many attempts one `connect` may make.
    pub max_retries: u32,
    /// The delay after the first failed attempt.
    pub initial_retry_delay: Duration,
    /// The cap of the delays.
    pub max_retry_delay: Duration,
}

impl View for ConnectionConfig {
    type V = ConfigModel;

    open spec fn view(&self) -> ConfigModel {
        ConfigModel {
            host: self.host@,
            port: self.port,
            client_id: self.client_id,
            max_retries: self.max_retries,
            initial_delay: duration_nanos(self.initial_retry_delay),
            max_delay: duration_nanos(self.max_retry_delay),
        }
    }
}

impl Clone for ConnectionConfig {
    fn clone(&self) -> (copy: Self)
        ensures
            copy@ == self@,
    {
        ConnectionConfig {
            host: self.host.clone(),
            port: self.port,
            client_id: self.client_id,
            max_retries: self.max_retries,
            initial_retry_delay: self.initial_retry_delay,
            max_retry_delay: self.max_retry_delay,
        }
    }
}

impl Default for ConnectionConfig {
    /// The local gateway on port 7500, five attempts, delays from one second
    /// up to thirty.
    fn default() -> (config: Self)
        ensures
            config@ == ConfigModel::default(),
    {
        ConnectionConfig {
            host: "127.0.0.1".to_owned(),
            port: 7500,
            client_id: 1,
            max_retries: 5,
            initial_retry_delay: seconds(1),
            max_retry_delay: seconds(30),
        }
    }
}

impl ConnectionConfig {
    /// Whether at least one attempt is allowed and the first delay is within
    /// the cap.
    pub fn is_valid(&self) -> (valid: bool)
        ensures
            valid == self@.valid(),
    {
        self.max_retries >= 1 && no_longer(&self.initial_retry_delay, &self.max_retry_delay)
    }

    /// The address handed to the transport: `host:port`.
    pub fn address(&self) -> (address: String)
        ensures
            address@ == self@.address(),
    {
        let mut address = self.host.clone();
        proof {
            reveal_strlit(":");
        }
        address.append(":");
        assert(address@ =~= self.host@ + seq![':']);
        append_decimal(&mut address, self.port as u64);
        address
    }
}

/// The state of the connection. Exactly one holds at a time.
#[derive(Debug)]
pub enum ConnectionStatus {
    Disconnected,
    Connecting,
    Connected,
    /// The last operation failed; the text says how.
    Error(String),
}

impl View for ConnectionStatus {
    type V = StatusModel;

    open spec fn view(&self) -> StatusModel {
        match self {
            ConnectionStatus::Disconnected => StatusModel::Disconnected,
            ConnectionStatus::Connecting => StatusModel::Connecting,
            ConnectionStatus::Connected => StatusModel::Connected,
            ConnectionStatus::Error(message) => StatusModel::Error(message@),
        }
    }
}

impl Clone for ConnectionStatus {
    fn clone(&self) -> (copy: Self)
        ensures
            copy@ == self@,
    {
        match self {
            ConnectionStatus::Disconnected => ConnectionStatus::Disconnected,
            ConnectionStatus::Connecting => ConnectionStatus::Connecting,
            ConnectionStatus::Connected => ConnectionStatus::Connected,
            ConnectionStatus::Error(message) => ConnectionStatus::Error(message.clone()),
        }
    }
}

/// The variables of the retry loop, handed to the caller with each step and
/// handed back with the outcome of the attempt.
#[derive(Debug)]
pub struct RetryState {
    attempt: u32,
    retry_delay: Duration,
    address: String,
    client_id: i32,
}

impl View for RetryState {
    type V = RetryModel;

    closed spec fn view(&self) -> RetryModel {
        RetryModel {
            attempt: self.attempt,
            delay: duration_nanos(self.retry_delay),
            address: self.address@,
            client_id: self.client_id,
        }
    }
}

impl RetryState {
    /// The number of the attempt that is due, counted from one.
    pub fn attempt(&self) -> (attempt: u32)
        ensures
            attempt == self@.attempt,
    {
        self.attempt
    }

    /// The delay to sleep if the attempt fails and another is allowed.
    pub fn retry_delay(&self) -> (delay: Duration)
        ensures
            duration_nanos(delay) == self@.delay,
    {
        self.retry_delay
    }

    /// The address to connect to.
    pub fn address(&self) -> (address: &str)
        ensures
            address@ == self@.address,
    {
        self.address.as_str()
    }

    /// The client identifier to connect as.
    pub fn client_id(&self) -> (client_id: i32)
        ensures
            client_id == self@.client_id,
    {
        self.client_id
    }
}

/// What the caller is to do next while connecting.
#[derive(Debug)]
pub enum ConnectStep {
    /// Call the transport's connect with the address and client identifier of
    /// the retry state now, then report the outcome.
    Attempt(RetryState),
    /// Sleep for the delay, then do as for `Attempt`.
    Backoff(RetryState, Duration),
    /// Sleep for the delay, then call `connect`.
    Settle(Duration),
    /// Connecting has failed for good.
    Failed(Failure),
}

impl View for ConnectStep {
    type V = StepModel;

    open spec fn view(&self) -> StepModel {
        match self {
            ConnectStep::Attempt(retry) => StepModel::Attempt(retry@),
            ConnectStep::Backoff(retry, delay) => StepModel::Backoff(
                retry@,
                duration_nanos(*delay),
            ),
            ConnectStep::Settle(delay) => StepModel::Settle(duration_nanos(*delay)),
            ConnectStep::Failed(failure) => StepModel::Failed(failure@),
        }
    }
}

/// Writes the text of the failure after `attempts` attempts.
fn exhausted_text(attempts: u32, last_error: Option<&str>) -> (text: String)
    ensures
        text@ == exhausted_message(
            attempts,
            match last_error {
                Some(detail) => Some(detail@),
                None => None,
            },
        ),
{
    let mut text = "Failed to connect after ".to_owned();
    append_decimal(&mut text, attempts as u64);
    text.append(" attempts. Last error: ");
    match last_error {
        Some(detail) => {
            let ghost before = text@;
            text.append("Some(");
            text.append(detail);
            text.append(")");
            assert(text@ =~= before + ("Some("@ + detail@ + ")"@));
        },
        None => {
            text.append("None");
        },
    }
    text
}

/// Borrows what the slot holds, for change in place. The slot stays full or
/// empty as it was.
fn borrow_held<H>(slot: &mut Option<H>) -> (held: Option<&mut H>)
    ensures
        held is Some <==> *old(slot) is Some,
        held is Some <==> *final(slot) is Some,
        held is Some ==> *held->0 == old(slot)->0 && final(slot)->0 == *final(held->0),
    no_unwind
{
    match slot {
        Some(handle) => Some(handle),
        None => None,
    }
}

/// Supervises one connection. `H` is the handle of a live session, which the
/// supervisor owns from a successful attempt until it disconnects.
pub struct ConnectionManager<H> {
    config: ConnectionConfig,
    status: ConnectionStatus,
    client: Option<H>,
}

impl<H> View for ConnectionManager<H> {
    type V = ManagerModel<H>;

    closed spec fn view(&self) -> ManagerModel<H> {
        ManagerModel { config: self.config@, status: self.status@, client: self.client }
    }
}

impl<H> ConnectionManager<H> {
    #[verifier::type_invariant]
    spec fn holds_handle_while_connected(self) -> bool {
        self@.inv()
    }

    /// A supervisor for `config`: disconnected, with no handle.
    pub fn new(config: ConnectionConfig) -> (manager: Self)
        ensures
            manager@ == ManagerModel::<H>::new(config@),
    {
        ConnectionManager { config, status: ConnectionStatus::Disconnected, client: None }
    }

    /// A supervisor for the default configuration.
    pub fn with_default_config() -> (manager: Self)
        ensures
            manager@ == ManagerModel::<H>::new(ConfigModel::default()),
    {
        Self::new(ConnectionConfig::default())
    }

    /// Starts to connect. The status becomes `Connecting` and the step is the
    /// first attempt; with a configuration that allows no attempt the status
    /// becomes `Error` and the step is the failure, and the two read the same.
    pub fn connect(&mut self) -> (step: ConnectStep)
        ensures
            (final(self)@, step@) == old(self)@.connect(),
    {
        if self.config.max_retries == 0 {
            let message = exhausted_text(0, None);
            self.status = ConnectionStatus::Error(message.clone());
            ConnectStep::Failed(Failure::new(message))
        } else {
            self.status = ConnectionStatus::Connecting;
            ConnectStep::Attempt(
                RetryState {
                    attempt: 1,
                    retry_delay: self.config.initial_retry_delay,
                    address: self.config.address(),
                    client_id: self.config.client_id,
                },
            )
        }
    }

    /// Takes the report that the attempt of `retry` failed with `detail`.
    /// While attempts remain the step is to sleep the current delay and try
    /// again, with the next delay doubled and capped. After the last attempt
    /// the status becomes `Error` and the step is the failure; the two read
    /// the same, and the text ends in `detail`.
    pub fn attempt_failed(&mut self, retry: RetryState, detail: String) -> (step: ConnectStep)
        ensures
            (final(self)@, step@) == old(self)@.attempt_failed(retry@, detail@),
    {
        if retry.attempt < self.config.max_retries {
            let delay = retry.retry_delay;
            ConnectStep::Backoff(
                RetryState {
                    attempt: retry.attempt + 1,
                    retry_delay: next_delay(delay, self.config.max_retry_delay),
                    address: retry.address,
                    client_id: retry.client_id,
                },
                delay,
            )
        } else {
            let message = exhausted_text(self.config.max_retries, Some(detail.as_str()));
            self.status = ConnectionStatus::Error(message.clone());
            ConnectStep::Failed(Failure::new(message))
        }
    }

    /// Takes the session that the attempt of `retry` gave. The supervisor owns
    /// `client` from here on and is `Connected`; a handle it held before is
    /// dropped.
    pub fn attempt_succeeded(&mut self, retry: RetryState, client: H)
        ensures
            final(self)@ == old(self)@.attempt_succeeded(client),
    {
        self.client = Some(client);
        self.status = ConnectionStatus::Connected;
    }

    /// Lets go of the session, if one is held, and becomes `Disconnected`.
    /// Without a handle this does nothing.
    pub fn disconnect(&mut self)
        ensures
            final(self)@ == old(self)@.disconnect(),
    {
        if self.client.is_some() {
            self.status = ConnectionStatus::Disconnected;
            self.client = None;
        }
    }

    /// Whether the status is `Connected`. A connected supervisor holds its
    /// handle.
    pub fn is_connected(&self) -> (connected: bool)
        ensures
            connected == self@.is_connected(),
            connected ==> self@.client is Some,
    {
        proof {
            use_type_invariant(self);
        }
        matches!(self.status, ConnectionStatus::Connected)
    }

    /// The current status.
    pub fn get_status(&self) -> (status: &ConnectionStatus)
        ensures
            status@ == self@.status,
    {
        &self.status
    }

    /// The configuration this supervisor was made with.
    pub fn config(&self) -> (config: &ConnectionConfig)
        ensures
            config@ == self@.config,
    {
        &self.config
    }

    /// The handle of the live session, if one is held.
    pub fn get_client(&self) -> (client: Option<&H>)
        ensures
            client is Some <==> self@.client is Some,
            client is Some ==> *client->0 == self@.client->0,
    {
        self.client.as_ref()
    }

    /// The handle of the live session, for use that changes it. The
    /// supervisor keeps the handle.
    pub fn get_client_mut(&mut self) -> (client: Option<&mut H>)
        ensures
            client is Some <==> old(self)@.client is Some,
            client is Some ==> *client->0 == old(self)@.client->0,
            final(self)@.config == old(self)@.config,
            final(self)@.status == old(self)@.status,
            final(self)@.client is Some <==> old(self)@.client is Some,
            client is Some ==> final(self)@.client->0 == *final(client->0),
    {
        proof {
            use_type_invariant(&*self);
        }
        borrow_held(&mut self.client)
    }

    /// Starts to reconnect: lets go of the session as `disconnect` does, and
    /// asks for the settle delay. The caller then sleeps and calls `connect`.
    pub fn reconnect(&mut self) -> (step: ConnectStep)
        ensures
            (final(self)@, step@) == old(self)@.reconnect(),
    {
        self.disconnect();
        ConnectStep::Settle(seconds(SETTLE_DELAY_SECS))
    }

    /// Whether a health check has to ask the gateway. A supervisor that is not
    /// connected is not healthy, and nothing is asked.
    pub fn health_check(&self) -> (step: HealthStep)
        ensures
            step == self@.health_check(),
            step == HealthStep::Probe <==> self@.is_connected(),
    {
        if self.is_connected() {
            HealthStep::Probe
        } else {
            HealthStep::NotConnected
        }
    }

    /// Takes the gateway's answer to a health check and gives the verdict.
    /// An answer makes a connected supervisor healthy. A failure makes the
    /// status `Error` with the failure's detail, and the verdict is `false`.
    pub fn probe_finished(&mut self, outcome: Result<(), String>) -> (healthy: bool)
        ensures
            (final(self)@, healthy) == old(self)@.probe_finished(
                match outcome {
                    Ok(_) => Ok(()),
                    Err(detail) => Err(detail@),
                },
            ),
    {
        if !self.is_connected() {
            return false;
        }
        match outcome {
            Ok(_) => true,
            Err(detail) => {
                let mut message = "Health check failed: ".to_owned();
                message.append(detail.as_str());
                self.status = ConnectionStatus::Error(message);
                false
            },
        }
    }
}

} // verus!
