//! Transaction submission engine: checks the signer's balance floor once,
//! then drives bounded submit attempts. Each attempt signs against a fresh
//! blockhash and freshly built instructions; a confirmation poll watches
//! every signature of the attempt sequence, oldest first, and the first one
//! seen confirmed or finalized wins. Attempts beyond the gateway budget end
//! in a terminal max-retries error.
//!
//! The engine itself performs no I/O: it is a state machine that tells its
//! driver what to do next (fetch, submit, sleep-and-poll) and consumes what
//! the driver observed.

use crate::Miner;
use vstd::prelude::*;

verus! {

/// Minimum lamport balance the signing identity must hold; at or below this
/// floor the run is aborted as misconfigured before anything is submitted.
pub const MIN_BALANCE: u64 = 500000;

/// Default number of confirmation polls per attempt.
pub const DEFAULT_CONFIRM_RETRIES: usize = 3;

/// Default seconds between confirmation polls.
pub const DEFAULT_CONFIRM_INTERVAL: usize = 4;

/// Default bound on resubmissions.
pub const DEFAULT_GATEWAY_RETRIES: usize = 40;

/// How far the ledger reports one signature has come.
#[derive(Clone, Copy, Debug, PartialEq, Eq, Structural)]
pub enum ConfirmationStatus {
    Processed,
    Confirmed,
    Finalized,
}

/// Whether a reported status means the transaction landed: `Confirmed` or
/// `Finalized` counts, `Processed` does not.
pub open spec fn status_landed(s: ConfirmationStatus) -> bool {
    s is Confirmed || s is Finalized
}

/// Whether one reported entry (absent when the ledger does not know the
/// signature) has landed.
pub open spec fn entry_landed(e: Option<ConfirmationStatus>) -> bool {
    match e {
        Some(s) => status_landed(s),
        None => false,
    }
}

/// Index of the first landed entry of a status report, oldest first.
pub open spec fn first_landed_spec(s: Seq<Option<ConfirmationStatus>>) -> Option<int>
    decreases s.len(),
{
    if s.len() == 0 {
        None
    } else if entry_landed(s[0]) {
        Some(0int)
    } else {
        match first_landed_spec(s.skip(1)) {
            Some(i) => Some(i + 1),
            None => None,
        }
    }
}

/// `first_landed_spec` returns exactly the position of the first landed
/// entry, and `None` exactly when no entry has landed.
pub proof fn lemma_first_landed_position(s: Seq<Option<ConfirmationStatus>>)
    ensures
        match first_landed_spec(s) {
            Some(i) => 0 <= i < s.len() && entry_landed(s[i]) && forall|j: int|
                0 <= j < i ==> !entry_landed(s[j]),
            None => forall|j: int| 0 <= j < s.len() ==> !entry_landed(s[j]),
        },
    decreases s.len(),
{
    if s.len() > 0 && !entry_landed(s[0]) {
        let t = s.skip(1);
        lemma_first_landed_position(t);
        match first_landed_spec(t) {
            Some(i) => {
                assert(t[i] == s[i + 1]);
                assert forall|j: int| 0 <= j < i + 1 implies !entry_landed(s[j]) by {
                    if j > 0 {
                        assert(t[j - 1] == s[j]);
                    }
                }
            },
            None => {
                assert forall|j: int| 0 <= j < s.len() implies !entry_landed(s[j]) by {
                    if j > 0 {
                        assert(t[j - 1] == s[j]);
                    }
                }
            },
        }
    }
}

/// Whether one reported entry has landed.
fn is_landed(e: &Option<ConfirmationStatus>) -> (r: bool)
    ensures
        r == entry_landed(*e),
{
    match e {
        Some(ConfirmationStatus::Confirmed) => true,
        Some(ConfirmationStatus::Finalized) => true,
        _ => false,
    }
}

/// Scans a status report in submission order (oldest signature first) and
/// returns the index of the first landed signature.
pub fn first_landed(statuses: &Vec<Option<ConfirmationStatus>>) -> (r: Option<usize>)
    ensures
        match r {
            Some(i) => first_landed_spec(statuses@) == Some(i as int),
            None => first_landed_spec(statuses@) is None,
        },
{
    proof {
        lemma_first_landed_position(statuses@);
    }
    let mut i: usize = 0;
    while i < statuses.len()
        invariant
            0 <= i <= statuses@.len(),
            forall|j: int| 0 <= j < i ==> !entry_landed(statuses@[j]),
            match first_landed_spec(statuses@) {
                Some(k) => 0 <= k < statuses@.len() && entry_landed(statuses@[k]) && forall|
                    j: int,
                |
                    0 <= j < k ==> !entry_landed(statuses@[j]),
                None => forall|j: int| 0 <= j < statuses@.len() ==> !entry_landed(statuses@[j]),
            },
        decreases statuses@.len() - i,
    {
        if is_landed(&statuses[i]) {
            return Some(i);
        }
        i = i + 1;
    }
    None
}

/// Retry budgets and the confirmation mode of one submission.
#[derive(Clone, Copy, Debug)]
pub struct SubmitConfig {
    pub skip_confirm: bool,
    pub confirm_retries: usize,
    pub confirm_interval: usize,
    pub gateway_retries: usize,
}

/// What the engine waits for next.
#[derive(Clone, Copy, Debug)]
pub enum SubmitPhase {
    /// The signer's balance must be checked before anything is sent.
    AwaitingBalance,
    /// Instructions must be rebuilt, signed against a fresh blockhash, and
    /// submitted.
    AwaitingSubmit,
    /// The engine waits out the poll interval, then wants the status of
    /// every signature submitted so far.
    AwaitingStatuses { polls_done: usize },
    /// Terminal: the signature with this index of the history landed.
    Landed { sig_index: usize },
    /// Terminal: the attempt budget ran out without a confirmation.
    Exhausted,
    /// Terminal: the signer's balance was at or below the floor.
    InsufficientBalance,
}

/// The submission engine: its configuration, how many attempts have ended
/// unconfirmed, how many signatures the attempt sequence has produced, and
/// what it waits for.
pub struct SubmitMachine {
    pub config: SubmitConfig,
    pub attempts: usize,
    pub sig_count: usize,
    pub phase: SubmitPhase,
}

/// What the engine asks its driver to do next.
#[derive(Clone, Copy, Debug)]
pub enum SubmitAction {
    /// Read the signer's lamport balance and report it.
    FetchBalance,
    /// Abort: the balance is at or below the floor; nothing was submitted.
    AbortInsufficientBalance,
    /// Fetch a fresh blockhash, rebuild the instructions, sign and submit,
    /// and append the new signature to the history on success.
    BuildSignSubmit,
    /// Sleep `interval_seconds`, then query the status of every signature
    /// submitted so far, oldest first.
    WaitAndPoll { interval_seconds: usize },
    /// Sleep the short fixed backoff, then build and submit again.
    BackoffThenResubmit,
    /// Done: the signature with this index of the history landed.
    ReturnLanded { sig_index: usize },
    /// Done: the attempt budget is exhausted; report the terminal error.
    ReturnMaxRetries,
}

/// What the driver observed and reports back to the engine.
pub enum SubmitEvent {
    /// The signer's current balance in base units.
    BalanceFetched { lamports: u64 },
    /// The submit call was accepted; one signature was appended.
    Submitted,
    /// The submit call failed; nothing was appended.
    SubmitFailed,
    /// One status per signature submitted so far, oldest first.
    StatusesFetched { statuses: Vec<Option<ConfirmationStatus>> },
    /// The status query itself failed.
    StatusQueryFailed,
}

/// The driver may only report a status vector that covers exactly the
/// signature history.
pub open spec fn event_ok(m: SubmitMachine, ev: SubmitEvent) -> bool {
    match ev {
        SubmitEvent::StatusesFetched { statuses } => statuses@.len() == m.sig_count,
        _ => true,
    }
}

/// Internal consistency of the engine's counters.
pub open spec fn machine_inv(m: SubmitMachine) -> bool {
    match m.phase {
        SubmitPhase::AwaitingBalance => m.attempts == 0 && m.sig_count == 0,
        SubmitPhase::AwaitingSubmit => m.attempts <= m.config.gateway_retries,
        SubmitPhase::AwaitingStatuses { polls_done } => m.attempts <= m.config.gateway_retries
            && polls_done < m.config.confirm_retries && m.sig_count >= 1,
        SubmitPhase::Landed { sig_index } => sig_index < m.sig_count,
        SubmitPhase::Exhausted => true,
        SubmitPhase::InsufficientBalance => true,
    }
}

/// The action a phase is waiting on; re-issued when the driver reports an
/// event the phase does not consume.
pub open spec fn pending_action(m: SubmitMachine) -> SubmitAction {
    match m.phase {
        SubmitPhase::AwaitingBalance => SubmitAction::FetchBalance,
        SubmitPhase::AwaitingSubmit => SubmitAction::BuildSignSubmit,
        SubmitPhase::AwaitingStatuses { polls_done } => SubmitAction::WaitAndPoll {
            interval_seconds: m.config.confirm_interval,
        },
        SubmitPhase::Landed { sig_index } => SubmitAction::ReturnLanded { sig_index },
        SubmitPhase::Exhausted => SubmitAction::ReturnMaxRetries,
        SubmitPhase::InsufficientBalance => SubmitAction::AbortInsufficientBalance,
    }
}

/// Ends one unconfirmed attempt: resubmit after a backoff while attempts
/// remain in the gateway budget, otherwise the terminal max-retries error.
pub open spec fn end_attempt_spec(m: SubmitMachine) -> (SubmitMachine, SubmitAction) {
    if m.attempts < m.config.gateway_retries {
        (
            SubmitMachine {
                attempts: (m.attempts + 1) as usize,
                phase: SubmitPhase::AwaitingSubmit,
                ..m
            },
            SubmitAction::BackoffThenResubmit,
        )
    } else {
        (SubmitMachine { phase: SubmitPhase::Exhausted, ..m }, SubmitAction::ReturnMaxRetries)
    }
}

/// One poll cycle ended without a landed signature: poll again while the
/// confirmation budget lasts, otherwise end the attempt.
pub open spec fn poll_again_spec(m: SubmitMachine, polls_done: usize) -> (
    SubmitMachine,
    SubmitAction,
) {
    if polls_done + 1 < m.config.confirm_retries {
        (
            SubmitMachine {
                phase: SubmitPhase::AwaitingStatuses { polls_done: (polls_done + 1) as usize },
                ..m
            },
            SubmitAction::WaitAndPoll { interval_seconds: m.config.confirm_interval },
        )
    } else {
        end_attempt_spec(m)
    }
}

/// The engine's transition function: what one observation does to the state
/// and what the driver must do next.
pub open spec fn submit_step_spec(m: SubmitMachine, ev: SubmitEvent) -> (
    SubmitMachine,
    SubmitAction,
) {
    match m.phase {
        SubmitPhase::AwaitingBalance => match ev {
            SubmitEvent::BalanceFetched { lamports } => {
                if lamports <= MIN_BALANCE {
                    (
                        SubmitMachine { phase: SubmitPhase::InsufficientBalance, ..m },
                        SubmitAction::AbortInsufficientBalance,
                    )
                } else {
                    (
                        SubmitMachine { phase: SubmitPhase::AwaitingSubmit, ..m },
                        SubmitAction::BuildSignSubmit,
                    )
                }
            },
            _ => (m, pending_action(m)),
        },
        SubmitPhase::AwaitingSubmit => match ev {
            SubmitEvent::Submitted => {
                let grown = SubmitMachine { sig_count: (m.sig_count + 1) as usize, ..m };
                if m.config.skip_confirm {
                    (
                        SubmitMachine { phase: SubmitPhase::Landed { sig_index: m.sig_count }, ..grown },
                        SubmitAction::ReturnLanded { sig_index: m.sig_count },
                    )
                } else if m.config.confirm_retries == 0 {
                    end_attempt_spec(grown)
                } else {
                    (
                        SubmitMachine { phase: SubmitPhase::AwaitingStatuses { polls_done: 0 }, ..grown },
                        SubmitAction::WaitAndPoll { interval_seconds: m.config.confirm_interval },
                    )
                }
            },
            SubmitEvent::SubmitFailed => end_attempt_spec(m),
            _ => (m, pending_action(m)),
        },
        SubmitPhase::AwaitingStatuses { polls_done } => match ev {
            SubmitEvent::StatusesFetched { statuses } => match first_landed_spec(statuses@) {
                Some(i) => (
                    SubmitMachine {
                        phase: SubmitPhase::Landed { sig_index: i as usize },
                        ..m
                    },
                    SubmitAction::ReturnLanded { sig_index: i as usize },
                ),
                None => poll_again_spec(m, polls_done),
            },
            SubmitEvent::StatusQueryFailed => poll_again_spec(m, polls_done),
            _ => (m, pending_action(m)),
        },
        _ => (m, pending_action(m)),
    }
}

/// Feeds one observation to the engine and returns what the driver must do
/// next; the transition is exactly `submit_step_spec`.
pub fn submit_step(m: &mut SubmitMachine, ev: SubmitEvent) -> (a: SubmitAction)
    requires
        machine_inv(*old(m)),
        event_ok(*old(m), ev),
        old(m).sig_count < usize::MAX,
    ensures
        (*final(m), a) == submit_step_spec(*old(m), ev),
        machine_inv(*final(m)),
{
    match m.phase {
        SubmitPhase::AwaitingBalance => match ev {
            SubmitEvent::BalanceFetched { lamports } => {
                if lamports <= MIN_BALANCE {
                    m.phase = SubmitPhase::InsufficientBalance;
                    SubmitAction::AbortInsufficientBalance
                } else {
                    m.phase = SubmitPhase::AwaitingSubmit;
                    SubmitAction::BuildSignSubmit
                }
            },
            _ => pending(m),
        },
        SubmitPhase::AwaitingSubmit => match ev {
            SubmitEvent::Submitted => {
                let first_new = m.sig_count;
                m.sig_count = m.sig_count + 1;
                if m.config.skip_confirm {
                    m.phase = SubmitPhase::Landed { sig_index: first_new };
                    SubmitAction::ReturnLanded { sig_index: first_new }
                } else if m.config.confirm_retries == 0 {
                    end_attempt(m)
                } else {
                    m.phase = SubmitPhase::AwaitingStatuses { polls_done: 0 };
                    SubmitAction::WaitAndPoll { interval_seconds: m.config.confirm_interval }
                }
            },
            SubmitEvent::SubmitFailed => end_attempt(m),
            _ => pending(m),
        },
        SubmitPhase::AwaitingStatuses { polls_done } => match ev {
            SubmitEvent::StatusesFetched { statuses } => match first_landed(&statuses) {
                Some(i) => {
                    proof {
                        lemma_first_landed_position(statuses@);
                    }
                    m.phase = SubmitPhase::Landed { sig_index: i };
                    SubmitAction::ReturnLanded { sig_index: i }
                },
                None => poll_again(m, polls_done),
            },
            SubmitEvent::StatusQueryFailed => poll_again(m, polls_done),
            _ => pending(m),
        },
        _ => pending(m),
    }
}

/// Re-issues the action the engine is waiting on, leaving it unchanged.
fn pending(m: &mut SubmitMachine) -> (a: SubmitAction)
    ensures
        *final(m) == *old(m),
        a == pending_action(*old(m)),
{
    match m.phase {
        SubmitPhase::AwaitingBalance => SubmitAction::FetchBalance,
        SubmitPhase::AwaitingSubmit => SubmitAction::BuildSignSubmit,
        SubmitPhase::AwaitingStatuses { polls_done } => SubmitAction::WaitAndPoll {
            interval_seconds: m.config.confirm_interval,
        },
        SubmitPhase::Landed { sig_index } => SubmitAction::ReturnLanded { sig_index },
        SubmitPhase::Exhausted => SubmitAction::ReturnMaxRetries,
        SubmitPhase::InsufficientBalance => SubmitAction::AbortInsufficientBalance,
    }
}

/// Ends one unconfirmed attempt, mirroring `end_attempt_spec`.
fn end_attempt(m: &mut SubmitMachine) -> (a: SubmitAction)
    requires
        old(m).attempts <= old(m).config.gateway_retries,
    ensures
        (*final(m), a) == end_attempt_spec(*old(m)),
{
    if m.attempts < m.config.gateway_retries {
        m.attempts = m.attempts + 1;
        m.phase = SubmitPhase::AwaitingSubmit;
        SubmitAction::BackoffThenResubmit
    } else {
        m.phase = SubmitPhase::Exhausted;
        SubmitAction::ReturnMaxRetries
    }
}

/// Ends one poll cycle without a landed signature, mirroring
/// `poll_again_spec`.
fn poll_again(m: &mut SubmitMachine, polls_done: usize) -> (a: SubmitAction)
    requires
        old(m).attempts <= old(m).config.gateway_retries,
        polls_done < old(m).config.confirm_retries,
    ensures
        (*final(m), a) == poll_again_spec(*old(m), polls_done),
{
    if polls_done + 1 < m.config.confirm_retries {
        m.phase = SubmitPhase::AwaitingStatuses { polls_done: polls_done + 1 };
        SubmitAction::WaitAndPoll { interval_seconds: m.config.confirm_interval }
    } else {
        end_attempt(m)
    }
}

/// The state after `k` submit attempts in a row have failed, starting from a
/// machine that was ready to submit.
pub open spec fn after_failed_submits(m: SubmitMachine, k: nat) -> SubmitMachine
    decreases k,
{
    if k == 0 {
        m
    } else {
        submit_step_spec(after_failed_submits(m, (k - 1) as nat), SubmitEvent::SubmitFailed).0
    }
}

/// Retry bound: starting from the state right after the balance check, a
/// driver whose submits all fail is asked to resubmit after each of the
/// first `gateway_retries` failed attempts, and gets the terminal
/// max-retries error exactly when the `gateway_retries + 1`st attempt fails
/// — so exactly `gateway_retries + 1` submit attempts are made, no more and
/// no fewer.
pub proof fn lemma_submit_retry_bound(m0: SubmitMachine, k: nat)
    requires
        m0.phase is AwaitingSubmit,
        m0.attempts == 0,
    ensures
        k <= m0.config.gateway_retries ==> {
            let mk = after_failed_submits(m0, k);
            &&& mk.phase is AwaitingSubmit
            &&& mk.attempts == k
            &&& mk.config == m0.config
            &&& (k >= 1 ==> submit_step_spec(
                after_failed_submits(m0, (k - 1) as nat),
                SubmitEvent::SubmitFailed,
            ).1 is BackoffThenResubmit)
        },
        k == m0.config.gateway_retries + 1 ==> after_failed_submits(m0, k).phase is Exhausted
            && submit_step_spec(
            after_failed_submits(m0, (k - 1) as nat),
            SubmitEvent::SubmitFailed,
        ).1 is ReturnMaxRetries,
    decreases k,
{
    if k > 0 {
        lemma_submit_retry_bound(m0, (k - 1) as nat);
    }
}

/// Confirmation cross-check: when a poll reports an older signature as
/// landed (confirmed or finalized) and later ones merely processed, the
/// engine returns success keyed to the oldest landed signature, whatever was
/// submitted after it.
pub proof fn lemma_first_confirmed_wins(
    m: SubmitMachine,
    statuses: Vec<Option<ConfirmationStatus>>,
    i: int,
)
    requires
        m.phase is AwaitingStatuses,
        0 <= i < statuses@.len(),
        entry_landed(statuses@[i]),
        forall|j: int| 0 <= j < i ==> !entry_landed(statuses@[j]),
    ensures
        submit_step_spec(m, SubmitEvent::StatusesFetched { statuses }).1
            == (SubmitAction::ReturnLanded { sig_index: i as usize }),
{
    lemma_first_landed_position(statuses@);
    match first_landed_spec(statuses@) {
        Some(k) => {
            assert(!(k < i) && !(i < k));
        },
        None => {
            assert(!entry_landed(statuses@[i]));
        },
    }
}

/// The balance floor gates every submission: a fresh engine told the balance
/// is at or below `MIN_BALANCE` aborts as misconfigured without ever asking
/// for a submission; told anything above it, the first thing it asks for is
/// a submission.
pub proof fn lemma_balance_floor(m: SubmitMachine, lamports: u64)
    requires
        m.phase is AwaitingBalance,
    ensures
        lamports <= MIN_BALANCE ==> submit_step_spec(
            m,
            SubmitEvent::BalanceFetched { lamports },
        ).1 is AbortInsufficientBalance && submit_step_spec(
            m,
            SubmitEvent::BalanceFetched { lamports },
        ).0.phase is InsufficientBalance,
        lamports > MIN_BALANCE ==> submit_step_spec(
            m,
            SubmitEvent::BalanceFetched { lamports },
        ).1 is BuildSignSubmit,
{
}

/// Once the balance floor has failed the engine is stuck: whatever the
/// driver reports, the state never changes and the only verdict is the fatal
/// abort — no submission can ever be asked for.
pub proof fn lemma_insufficient_balance_is_terminal(m: SubmitMachine, ev: SubmitEvent)
    requires
        m.phase is InsufficientBalance,
    ensures
        submit_step_spec(m, ev).0 == m,
        submit_step_spec(m, ev).1 is AbortInsufficientBalance,
{
}

/// A fresh engine that will check the balance floor before submitting
/// anything.
pub fn submit_machine(config: SubmitConfig) -> (m: SubmitMachine)
    ensures
        m.config == config,
        m.attempts == 0,
        m.sig_count == 0,
        m.phase is AwaitingBalance,
        machine_inv(m),
{
    SubmitMachine { config, attempts: 0, sig_count: 0, phase: SubmitPhase::AwaitingBalance }
}

impl Miner {
    /// A fresh submission engine with this miner's confirmation and gateway
    /// budgets and the given confirmation mode.
    pub fn submit_engine(&self, skip_confirm: bool) -> (m: SubmitMachine)
        ensures
            m.config.skip_confirm == skip_confirm,
            m.config.confirm_retries == self.confirm_retries,
            m.config.confirm_interval == self.confirm_interval,
            m.config.gateway_retries == self.gateway_retries,
            m.attempts == 0,
            m.sig_count == 0,
            m.phase is AwaitingBalance,
            machine_inv(m),
    {
        submit_machine(
            SubmitConfig {
                skip_confirm,
                confirm_retries: self.confirm_retries,
                confirm_interval: self.confirm_interval,
                gateway_retries: self.gateway_retries,
            },
        )
    }
}

} // verus!
