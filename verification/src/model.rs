//! The supervisor as a state machine over mathematical values.
//!
//! A supervisor holds a configuration, a status and at most one handle of a
//! live session. The caller drives it: each operation returns the next thing
//! to do, and the caller reports what came of it. The functions here say, for
//! every state and every report, what the next state and the next step are.
//! The executable supervisor is held to them.

use crate::backoff::doubled_capped;
use crate::text::decimal;
use vstd::prelude::*;

verus! {

/// What a `ConnectionConfig` holds, with its delays in nanoseconds.
pub struct ConfigModel {
    pub host: Seq<char>,
    pub port: u16,
    pub client_id: i32,
    pub max_retries: u32,
    pub initial_delay: nat,
    pub max_delay: nat,
}

impl ConfigModel {
    /// At least one attempt is allowed, and the schedule starts within its cap.
    pub open spec fn valid(self) -> bool {
        self.max_retries >= 1 && self.initial_delay <= self.max_delay
    }

    /// The local gateway on port 7500, five attempts, delays from one second
    /// up to thirty.
    pub open spec fn default() -> Self {
        ConfigModel {
            host: "127.0.0.1"@,
            port: 7500,
            client_id: 1,
            max_retries: 5,
            initial_delay: 1_000_000_000,
            max_delay: 30_000_000_000,
        }
    }

    /// The address handed to the transport: host, a colon, the port in decimal.
    pub open spec fn address(self) -> Seq<char> {
        self.host + seq![':'] + decimal(self.port as nat)
    }
}

/// What a `ConnectionStatus` holds.
pub enum StatusModel {
    Disconnected,
    Connecting,
    Connected,
    Error(Seq<char>),
}

/// The variables of the retry loop while an attempt is due or under way.
pub struct RetryModel {
    /// The number of the attempt, counted from one.
    pub attempt: u32,
    /// The delay to sleep if this attempt fails and another is allowed.
    pub delay: nat,
    pub address: Seq<char>,
    pub client_id: i32,
}

/// What the caller is to do next.
pub enum StepModel {
    /// Make the attempt now.
    Attempt(RetryModel),
    /// Sleep for the delay, then make the attempt.
    Backoff(RetryModel, nat),
    /// Sleep for the delay, then start to connect.
    Settle(nat),
    /// Give up: the text of the failure.
    Failed(Seq<char>),
}

/// Whether the gateway must be asked before a health check can answer.
#[derive(Debug, Clone, Copy, PartialEq, Eq, Structural)]
pub enum HealthStep {
    /// No live connection: the answer is "not healthy", and nothing is asked.
    NotConnected,
    /// Ask the gateway for its time over the held handle, then report.
    Probe,
}

/// Seconds to wait between letting go of a session and connecting anew.
pub const SETTLE_DELAY_SECS: u64 = 1;

/// The text of the failure after `attempts` attempts, the last of which failed
/// with `last_error`.
pub open spec fn exhausted_message(attempts: u32, last_error: Option<Seq<char>>) -> Seq<char> {
    "Failed to connect after "@ + decimal(attempts as nat) + " attempts. Last error: "@ + (
    match last_error {
        Some(detail) => "Some("@ + detail + ")"@,
        None => "None"@,
    })
}

/// The text of the status after a failed health check.
pub open spec fn health_failure_message(detail: Seq<char>) -> Seq<char> {
    "Health check failed: "@ + detail
}

/// The first step of connecting: the first attempt, with the schedule at its
/// start; or failure at once where the configuration allows no attempt.
pub open spec fn first_step(config: ConfigModel) -> StepModel {
    if config.max_retries == 0 {
        StepModel::Failed(exhausted_message(0, None))
    } else {
        StepModel::Attempt(
            RetryModel {
                attempt: 1,
                delay: config.initial_delay,
                address: config.address(),
                client_id: config.client_id,
            },
        )
    }
}

/// The step after the attempt of `retry` failed with `detail`: while attempts
/// remain, sleep the current delay and try again with the delay doubled and
/// capped; after the last attempt, failure that carries `detail`.
pub open spec fn step_after_failure(
    config: ConfigModel,
    retry: RetryModel,
    detail: Seq<char>,
) -> StepModel {
    if retry.attempt < config.max_retries {
        StepModel::Backoff(
            RetryModel {
                attempt: (retry.attempt + 1) as u32,
                delay: doubled_capped(retry.delay, config.max_delay),
                address: retry.address,
                client_id: retry.client_id,
            },
            retry.delay,
        )
    } else {
        StepModel::Failed(exhausted_message(config.max_retries, Some(detail)))
    }
}

/// The status once `step` has been handed out: a failure shows in the status,
/// which then reads as the failure does; any other step leaves `otherwise`.
pub open spec fn status_after(step: StepModel, otherwise: StatusModel) -> StatusModel {
    match step {
        StepModel::Failed(message) => StatusModel::Error(message),
        _ => otherwise,
    }
}

/// What a `ConnectionManager` holds.
pub struct ManagerModel<H> {
    pub config: ConfigModel,
    pub status: StatusModel,
    pub client: Option<H>,
}

impl<H> ManagerModel<H> {
    /// A fresh supervisor: disconnected, with no handle.
    pub open spec fn new(config: ConfigModel) -> Self {
        ManagerModel { config, status: StatusModel::Disconnected, client: None }
    }

    /// A supervisor that reports a live connection holds its handle.
    pub open spec fn inv(self) -> bool {
        self.status is Connected ==> self.client is Some
    }

    pub open spec fn is_connected(self) -> bool {
        self.status is Connected
    }

    /// Starting to connect: the status shows it, and the first step is due.
    /// A handle still held stays until a new one replaces it.
    pub open spec fn connect(self) -> (Self, StepModel) {
        let step = first_step(self.config);
        (ManagerModel { status: status_after(step, StatusModel::Connecting), ..self }, step)
    }

    /// An attempt failed. The status changes only when that was the last one.
    pub open spec fn attempt_failed(self, retry: RetryModel, detail: Seq<char>) -> (
        Self,
        StepModel,
    ) {
        let step = step_after_failure(self.config, retry, detail);
        (ManagerModel { status: status_after(step, self.status), ..self }, step)
    }

    /// An attempt gave a session: the supervisor takes the handle and is
    /// connected. A handle held before is let go.
    pub open spec fn attempt_succeeded(self, client: H) -> Self {
        ManagerModel { status: StatusModel::Connected, client: Some(client), ..self }
    }

    /// Letting go of the session. Without a handle nothing changes.
    pub open spec fn disconnect(self) -> Self {
        if self.client is Some {
            ManagerModel { status: StatusModel::Disconnected, client: None, ..self }
        } else {
            self
        }
    }

    /// Reconnecting starts by letting go of the session; the caller then
    /// waits the settle delay before it starts to connect.
    pub open spec fn reconnect(self) -> (Self, StepModel) {
        (self.disconnect(), StepModel::Settle(SETTLE_DELAY_SECS as nat * 1_000_000_000))
    }

    /// Only a connected supervisor asks the gateway.
    pub open spec fn health_check(self) -> HealthStep {
        if self.status is Connected && self.client is Some {
            HealthStep::Probe
        } else {
            HealthStep::NotConnected
        }
    }

    /// The answer of a health check once the gateway was asked: healthy if the
    /// supervisor is connected and the gateway answered. A failed answer
    /// shows in the status; the handle stays.
    pub open spec fn probe_finished(self, outcome: Result<(), Seq<char>>) -> (Self, bool) {
        if !(self.status is Connected) {
            (self, false)
        } else {
            match outcome {
                Ok(_) => (self, true),
                Err(detail) => (
                    ManagerModel {
                        status: StatusModel::Error(health_failure_message(detail)),
                        ..self
                    },
                    false,
                ),
            }
        }
    }
}

/// A connected supervisor holds its handle: a fresh supervisor meets this,
/// and every operation keeps it.
pub proof fn lemma_operations_keep_handle_while_connected<H>(
    manager: ManagerModel<H>,
    config: ConfigModel,
    retry: RetryModel,
    detail: Seq<char>,
    client: H,
    outcome: Result<(), Seq<char>>,
)
    requires
        manager.inv(),
    ensures
        ManagerModel::<H>::new(config).inv(),
        manager.connect().0.inv(),
        manager.attempt_failed(retry, detail).0.inv(),
        manager.attempt_succeeded(client).inv(),
        manager.disconnect().inv(),
        manager.reconnect().0.inv(),
        manager.probe_finished(outcome).0.inv(),
{
}

/// No operation changes the configuration.
pub proof fn lemma_operations_keep_config<H>(
    manager: ManagerModel<H>,
    retry: RetryModel,
    detail: Seq<char>,
    client: H,
    outcome: Result<(), Seq<char>>,
)
    ensures
        manager.connect().0.config == manager.config,
        manager.attempt_failed(retry, detail).0.config == manager.config,
        manager.attempt_succeeded(client).config == manager.config,
        manager.disconnect().config == manager.config,
        manager.reconnect().0.config == manager.config,
        manager.probe_finished(outcome).0.config == manager.config,
{
}

/// Disconnecting is idempotent: a second call changes nothing. On a
/// supervisor without a handle the first call changes nothing either, so one
/// that is `Disconnected` stays so.
pub proof fn lemma_disconnect_idempotent<H>(manager: ManagerModel<H>)
    ensures
        manager.disconnect().disconnect() == manager.disconnect(),
        manager.disconnect().client is None,
        manager.client is None ==> manager.disconnect() == manager,
        manager.inv() ==> !manager.disconnect().is_connected(),
        manager.inv() && manager.status is Disconnected ==> manager.disconnect().status
            is Disconnected,
{
}

/// A supervisor that is not connected answers a health check without asking
/// the gateway: the step is `NotConnected`, and whatever is reported, the
/// verdict is `false` and nothing changes.
pub proof fn lemma_health_check_without_connection<H>(
    manager: ManagerModel<H>,
    outcome: Result<(), Seq<char>>,
)
    requires
        !manager.is_connected(),
    ensures
        manager.health_check() == HealthStep::NotConnected,
        manager.probe_finished(outcome) == (manager, false),
{
}

/// A health check never changes the handle, and it changes the status only
/// when a connected supervisor is told of a failure.
pub proof fn lemma_health_check_keeps_handle<H>(
    manager: ManagerModel<H>,
    outcome: Result<(), Seq<char>>,
)
    ensures
        manager.probe_finished(outcome).0.client == manager.client,
        manager.probe_finished(outcome).1 <==> manager.is_connected() && outcome is Ok,
        manager.probe_finished(outcome).0.status != manager.status ==> manager.is_connected()
            && outcome is Err,
{
}

/// Reconnecting lets go of the old session before anything else: when the
/// first step of the new connection is handed out, the supervisor holds no
/// handle and is not connected, and that stays so until an attempt succeeds.
pub proof fn lemma_reconnect_disconnects_first<H>(
    manager: ManagerModel<H>,
    retry: RetryModel,
    detail: Seq<char>,
)
    requires
        manager.inv(),
    ensures
        manager.reconnect().0 == manager.disconnect(),
        manager.reconnect().0.client is None,
        !manager.reconnect().0.is_connected(),
        manager.reconnect().1 == StepModel::Settle(1_000_000_000),
        manager.reconnect().0.connect().0.client is None,
        manager.reconnect().0.connect().0.attempt_failed(retry, detail).0.client is None,
{
}

/// Where connecting fails, the status reads exactly as the failure that is
/// handed out, and the supervisor is not connected. That holds whether the
/// failure comes at the start or after an attempt.
pub proof fn lemma_failure_shows_in_status<H>(
    manager: ManagerModel<H>,
    retry: RetryModel,
    detail: Seq<char>,
)
    ensures
        manager.connect().1 matches StepModel::Failed(text) ==> manager.connect().0.status
            == StatusModel::Error(text),
        manager.attempt_failed(retry, detail).1 matches StepModel::Failed(text)
            ==> manager.attempt_failed(retry, detail).0.status == StatusModel::Error(text),
        manager.reconnect().0.connect().1 matches StepModel::Failed(text)
            ==> manager.reconnect().0.connect().0.status == StatusModel::Error(text),
{
}

/// No state is final: whatever the state, starting to connect with a
/// configuration that allows an attempt makes the status `Connecting` and
/// asks for the first attempt.
pub proof fn lemma_connect_from_any_state<H>(manager: ManagerModel<H>)
    requires
        manager.config.max_retries >= 1,
    ensures
        manager.connect().0.status is Connecting,
        manager.connect().1 is Attempt,
        manager.connect().0.client == manager.client,
{
}

} // verus!
