//! What a whole run of failed attempts looks like: which steps the
//! supervisor hands out, one after the other, and how long the caller sleeps
//! between them.

use crate::backoff::{backoff_delay, lemma_backoff_non_decreasing, lemma_backoff_within_cap};
use crate::model::{
    exhausted_message, first_step, step_after_failure, ConfigModel, ManagerModel, RetryModel,
    StatusModel, StepModel,
};
use vstd::prelude::*;

verus! {

/// The retry state of the attempt numbered `attempt`, counted from one, when
/// every attempt before it has failed.
pub open spec fn retry_for(config: ConfigModel, attempt: u32) -> RetryModel {
    RetryModel {
        attempt,
        delay: backoff_delay(config.initial_delay, config.max_delay, (attempt - 1) as nat),
        address: config.address(),
        client_id: config.client_id,
    }
}

/// The step the caller holds after it started to connect and then reported
/// the failures `details`, in order. Once connecting has failed, further
/// reports change nothing.
pub open spec fn step_after(config: ConfigModel, details: Seq<Seq<char>>) -> StepModel
    decreases details.len(),
{
    if details.len() == 0 {
        first_step(config)
    } else {
        match step_after(config, details.drop_last()) {
            StepModel::Attempt(retry) => step_after_failure(config, retry, details.last()),
            StepModel::Backoff(retry, _) => step_after_failure(config, retry, details.last()),
            done => done,
        }
    }
}

/// The delays the caller has slept, in order, by the time it holds
/// `step_after(config, details)` and has carried it out.
pub open spec fn delays_slept(config: ConfigModel, details: Seq<Seq<char>>) -> Seq<nat>
    decreases details.len(),
{
    if details.len() == 0 {
        Seq::empty()
    } else {
        let before = delays_slept(config, details.drop_last());
        match step_after(config, details) {
            StepModel::Backoff(_, delay) => before.push(delay),
            _ => before,
        }
    }
}

/// The number of attempts the caller has been asked to make by the time it
/// holds `step_after(config, details)`.
pub open spec fn attempts_asked(config: ConfigModel, details: Seq<Seq<char>>) -> nat
    decreases details.len(),
{
    let now: nat = match step_after(config, details) {
        StepModel::Attempt(_) => 1,
        StepModel::Backoff(_, _) => 1,
        _ => 0,
    };
    if details.len() == 0 {
        now
    } else {
        attempts_asked(config, details.drop_last()) + now
    }
}

/// The run of a supervisor whose attempts all fail. The first step is the
/// first attempt. After each failure but the last allowed, the step is to
/// sleep the delay of the backoff schedule and to make the next attempt.
/// After the last allowed failure the step is the failure itself, with the
/// detail of that last attempt.
pub proof fn lemma_retry_schedule(config: ConfigModel, details: Seq<Seq<char>>)
    requires
        config.max_retries >= 1,
        details.len() <= config.max_retries,
    ensures
        step_after(config, details) == if details.len() == 0 {
            StepModel::Attempt(retry_for(config, 1))
        } else if details.len() < config.max_retries {
            StepModel::Backoff(
                retry_for(config, (details.len() + 1) as u32),
                backoff_delay(
                    config.initial_delay,
                    config.max_delay,
                    (details.len() - 1) as nat,
                ),
            )
        } else {
            StepModel::Failed(exhausted_message(config.max_retries, Some(details.last())))
        },
    decreases details.len(),
{
    if details.len() > 0 {
        lemma_retry_schedule(config, details.drop_last());
    }
}

/// A supervisor whose attempts all fail asks for exactly as many attempts as
/// the configuration allows, and between them the caller sleeps the delays of
/// the backoff schedule, in order: one delay fewer than attempts, none after
/// the last.
pub proof fn lemma_attempts_and_delays(config: ConfigModel, details: Seq<Seq<char>>)
    requires
        config.max_retries >= 1,
        details.len() <= config.max_retries,
    ensures
        attempts_asked(config, details) == if details.len() < config.max_retries {
            details.len() + 1
        } else {
            config.max_retries as nat
        },
        delays_slept(config, details) == Seq::new(
            if details.len() < config.max_retries {
                details.len()
            } else {
                (config.max_retries - 1) as nat
            },
            |k: int| backoff_delay(config.initial_delay, config.max_delay, k as nat),
        ),
    decreases details.len(),
{
    lemma_retry_schedule(config, details);
    if details.len() > 0 {
        lemma_attempts_and_delays(config, details.drop_last());
        lemma_retry_schedule(config, details.drop_last());
    }
    assert(delays_slept(config, details) =~= Seq::new(
        if details.len() < config.max_retries {
            details.len()
        } else {
            (config.max_retries - 1) as nat
        },
        |k: int| backoff_delay(config.initial_delay, config.max_delay, k as nat),
    ));
}

/// With a valid configuration the caller never sleeps less than the time
/// before, and never longer than the cap.
pub proof fn lemma_delays_grow_within_cap(
    config: ConfigModel,
    details: Seq<Seq<char>>,
    i: int,
    j: int,
)
    requires
        config.valid(),
        details.len() <= config.max_retries,
        0 <= i <= j < delays_slept(config, details).len(),
    ensures
        delays_slept(config, details)[i] <= delays_slept(config, details)[j],
        delays_slept(config, details)[j] <= config.max_delay,
{
    lemma_attempts_and_delays(config, details);
    lemma_backoff_non_decreasing(config.initial_delay, config.max_delay, i as nat, j as nat);
    lemma_backoff_within_cap(config.initial_delay, config.max_delay, j as nat);
}

/// Connecting that has failed stays failed: reports that come after the last
/// allowed attempt change nothing.
pub proof fn lemma_failure_is_final(config: ConfigModel, details: Seq<Seq<char>>)
    requires
        details.len() >= config.max_retries,
    ensures
        step_after(config, details) == step_after(
            config,
            details.subrange(0, config.max_retries as int),
        ),
        step_after(config, details) is Failed,
    decreases details.len(),
{
    let allowed = details.subrange(0, config.max_retries as int);
    if details.len() == config.max_retries {
        assert(allowed =~= details);
        if config.max_retries >= 1 {
            lemma_retry_schedule(config, details);
        }
    } else {
        lemma_failure_is_final(config, details.drop_last());
        assert(details.drop_last().subrange(0, config.max_retries as int) =~= allowed);
    }
}

/// The supervisor and the step the caller holds after it started to connect
/// from `manager` and then reported the failures `details`, in order.
pub open spec fn run_after<H>(manager: ManagerModel<H>, details: Seq<Seq<char>>) -> (
    ManagerModel<H>,
    StepModel,
)
    decreases details.len(),
{
    if details.len() == 0 {
        manager.connect()
    } else {
        let (before, step) = run_after(manager, details.drop_last());
        match step {
            StepModel::Attempt(retry) => before.attempt_failed(retry, details.last()),
            StepModel::Backoff(retry, _) => before.attempt_failed(retry, details.last()),
            _ => (before, step),
        }
    }
}

/// While attempts fail, the supervisor stays `Connecting` and keeps the
/// handle it had; the steps are those of the retry schedule. When the last
/// allowed attempt has failed, the status is `Error` with the text that the
/// returned failure carries, which ends in the detail of that attempt.
pub proof fn lemma_run_of_failures<H>(manager: ManagerModel<H>, details: Seq<Seq<char>>)
    requires
        manager.config.max_retries >= 1,
        details.len() <= manager.config.max_retries,
    ensures
        run_after(manager, details).1 == step_after(manager.config, details),
        run_after(manager, details).0.config == manager.config,
        run_after(manager, details).0.client == manager.client,
        run_after(manager, details).0.status == if details.len()
            < manager.config.max_retries {
            StatusModel::Connecting
        } else {
            StatusModel::Error(
                exhausted_message(manager.config.max_retries, Some(details.last())),
            )
        },
    decreases details.len(),
{
    lemma_retry_schedule(manager.config, details);
    if details.len() > 0 {
        lemma_run_of_failures(manager, details.drop_last());
        lemma_retry_schedule(manager.config, details.drop_last());
    }
}

/// Success ends the run at once. If the attempt that follows the failures
/// `details` succeeds, the supervisor is `Connected` and holds the new handle;
/// the caller has made one attempt more than there were failures and has
/// slept once for each failure.
pub proof fn lemma_success_ends_the_run<H>(
    manager: ManagerModel<H>,
    details: Seq<Seq<char>>,
    client: H,
)
    requires
        manager.config.max_retries >= 1,
        details.len() < manager.config.max_retries,
    ensures
        run_after(manager, details).1 is Attempt || run_after(manager, details).1 is Backoff,
        run_after(manager, details).0.attempt_succeeded(client).status is Connected,
        run_after(manager, details).0.attempt_succeeded(client).client == Some(client),
        attempts_asked(manager.config, details) == details.len() + 1,
        delays_slept(manager.config, details).len() == details.len(),
{
    lemma_run_of_failures(manager, details);
    lemma_retry_schedule(manager.config, details);
    lemma_attempts_and_delays(manager.config, details);
}

} // verus!
