//! Mining orchestrator: the endless cycle that fetches chain state, searches
//! for a solution to the current challenge, and resubmits that solution —
//! with a freshly read reward rate each time — until it lands, after which
//! the chain state is fetched anew before the next search. Like the
//! submission engine, it performs no I/O itself: it tells its driver what to
//! do next and consumes what the driver observed.

use crate::search::{bytes_le, candidate_digest, Solution};
use vstd::prelude::*;

verus! {

/// What the orchestrator waits for next.
#[derive(Clone, Copy, Debug)]
pub enum MinePhase {
    /// The current challenge, difficulty target and reward rate must be read.
    AwaitingChainState,
    /// The difficulty search must be run on the current challenge.
    AwaitingSearch,
    /// The reward rate must be re-read before (re)submitting.
    AwaitingRewardRate,
    /// The held solution must be submitted with freshly built instructions.
    AwaitingSubmission,
}

/// One mining cycle: the chain state it was started from, the solution it
/// holds (if the search has completed), and what it waits for.
pub struct MineCycle {
    /// The miner's public identity, fixed for the whole run.
    pub identity: [u8; 32],
    pub challenge: [u8; 32],
    pub target: [u8; 32],
    pub reward_rate: u64,
    pub solution: Option<Solution>,
    pub phase: MinePhase,
}

/// What the driver observed and reports back.
pub enum MineEvent {
    /// The current puzzle state: challenge, difficulty target, reward rate.
    ChainStateFetched { challenge: [u8; 32], target: [u8; 32], reward_rate: u64 },
    /// The search returned a solution for the current challenge.
    SearchCompleted { solution: Solution },
    /// The freshly re-read network reward rate.
    RewardRateFetched { reward_rate: u64 },
    /// The submission engine returned a landed signature.
    SubmissionLanded,
    /// The submission engine exhausted its attempt budget.
    SubmissionExhausted,
}

/// What the orchestrator asks its driver to do next.
#[derive(Clone, Copy, Debug)]
pub enum MineAction {
    /// Read balance, challenge, difficulty target and reward rate.
    FetchChainState,
    /// Run the difficulty search on the stored challenge and target.
    RunSearch,
    /// Re-read the network reward rate.
    FetchRewardRate,
    /// Build instructions for the held solution (selecting a slot and fee
    /// with the stored reward rate) and drive a submission engine on them.
    SubmitSolution,
    /// Emit the landed event, then fetch fresh chain state.
    ReportLandedThenRefetch,
    /// Emit the failed event, then re-read the reward rate and resubmit the
    /// same solution.
    ReportFailedThenRetry,
}

/// A reported search result must actually solve the cycle's puzzle: its
/// digest is the candidate digest of its nonce and lies at or below the
/// target. The verified search returns exactly this.
pub open spec fn event_ok(c: MineCycle, ev: MineEvent) -> bool {
    match ev {
        MineEvent::SearchCompleted { solution } => solution.hash@ == candidate_digest(
            c.challenge@,
            c.identity@,
            solution.nonce,
        ) && bytes_le(solution.hash@, c.target@),
        _ => true,
    }
}

/// At most one solution is live, and only a checked one: whenever a cycle is
/// past its search, the held solution solves the cycle's puzzle; before and
/// during a search no solution is held (a landed submission clears it, so a
/// stale challenge is never searched or claimed again).
pub open spec fn cycle_inv(c: MineCycle) -> bool {
    match c.phase {
        MinePhase::AwaitingChainState => c.solution is None,
        MinePhase::AwaitingSearch => c.solution is None,
        MinePhase::AwaitingRewardRate | MinePhase::AwaitingSubmission => match c.solution {
            Some(sol) => sol.hash@ == candidate_digest(c.challenge@, c.identity@, sol.nonce)
                && bytes_le(sol.hash@, c.target@),
            None => false,
        },
    }
}

/// The action a phase is waiting on; re-issued when the driver reports an
/// event the phase does not consume.
pub open spec fn cycle_pending_action(c: MineCycle) -> MineAction {
    match c.phase {
        MinePhase::AwaitingChainState => MineAction::FetchChainState,
        MinePhase::AwaitingSearch => MineAction::RunSearch,
        MinePhase::AwaitingRewardRate => MineAction::FetchRewardRate,
        MinePhase::AwaitingSubmission => MineAction::SubmitSolution,
    }
}

/// The orchestrator's transition function.
pub open spec fn mine_step_spec(c: MineCycle, ev: MineEvent) -> (MineCycle, MineAction) {
    match c.phase {
        MinePhase::AwaitingChainState => match ev {
            MineEvent::ChainStateFetched { challenge, target, reward_rate } => (
                MineCycle {
                    challenge,
                    target,
                    reward_rate,
                    solution: None,
                    phase: MinePhase::AwaitingSearch,
                    ..c
                },
                MineAction::RunSearch,
            ),
            _ => (c, cycle_pending_action(c)),
        },
        MinePhase::AwaitingSearch => match ev {
            MineEvent::SearchCompleted { solution } => (
                MineCycle {
                    solution: Some(solution),
                    phase: MinePhase::AwaitingRewardRate,
                    ..c
                },
                MineAction::FetchRewardRate,
            ),
            _ => (c, cycle_pending_action(c)),
        },
        MinePhase::AwaitingRewardRate => match ev {
            MineEvent::RewardRateFetched { reward_rate } => (
                MineCycle { reward_rate, phase: MinePhase::AwaitingSubmission, ..c },
                MineAction::SubmitSolution,
            ),
            _ => (c, cycle_pending_action(c)),
        },
        MinePhase::AwaitingSubmission => match ev {
            MineEvent::SubmissionLanded => (
                MineCycle { solution: None, phase: MinePhase::AwaitingChainState, ..c },
                MineAction::ReportLandedThenRefetch,
            ),
            MineEvent::SubmissionExhausted => (
                MineCycle { phase: MinePhase::AwaitingRewardRate, ..c },
                MineAction::ReportFailedThenRetry,
            ),
            _ => (c, cycle_pending_action(c)),
        },
    }
}

/// A fresh cycle for the given identity; it first wants the chain state.
pub fn mine_cycle_start(identity: [u8; 32]) -> (c: MineCycle)
    ensures
        c.identity == identity,
        c.phase is AwaitingChainState,
        c.solution is None,
        cycle_inv(c),
{
    MineCycle {
        identity,
        challenge: [0; 32],
        target: [0; 32],
        reward_rate: 0,
        solution: None,
        phase: MinePhase::AwaitingChainState,
    }
}

/// Feeds one observation to the orchestrator and returns what the driver
/// must do next; the transition is exactly `mine_step_spec`.
pub fn mine_step(c: &mut MineCycle, ev: MineEvent) -> (a: MineAction)
    requires
        cycle_inv(*old(c)),
        event_ok(*old(c), ev),
    ensures
        (*final(c), a) == mine_step_spec(*old(c), ev),
        cycle_inv(*final(c)),
{
    match c.phase {
        MinePhase::AwaitingChainState => match ev {
            MineEvent::ChainStateFetched { challenge, target, reward_rate } => {
                c.challenge = challenge;
                c.target = target;
                c.reward_rate = reward_rate;
                c.solution = None;
                c.phase = MinePhase::AwaitingSearch;
                MineAction::RunSearch
            },
            _ => cycle_pending(c),
        },
        MinePhase::AwaitingSearch => match ev {
            MineEvent::SearchCompleted { solution } => {
                c.solution = Some(solution);
                c.phase = MinePhase::AwaitingRewardRate;
                MineAction::FetchRewardRate
            },
            _ => cycle_pending(c),
        },
        MinePhase::AwaitingRewardRate => match ev {
            MineEvent::RewardRateFetched { reward_rate } => {
                c.reward_rate = reward_rate;
                c.phase = MinePhase::AwaitingSubmission;
                MineAction::SubmitSolution
            },
            _ => cycle_pending(c),
        },
        MinePhase::AwaitingSubmission => match ev {
            MineEvent::SubmissionLanded => {
                c.solution = None;
                c.phase = MinePhase::AwaitingChainState;
                MineAction::ReportLandedThenRefetch
            },
            MineEvent::SubmissionExhausted => {
                c.phase = MinePhase::AwaitingRewardRate;
                MineAction::ReportFailedThenRetry
            },
            _ => cycle_pending(c),
        },
    }
}

/// Re-issues the action the orchestrator is waiting on, leaving it
/// unchanged.
fn cycle_pending(c: &mut MineCycle) -> (a: MineAction)
    ensures
        *final(c) == *old(c),
        a == cycle_pending_action(*old(c)),
{
    match c.phase {
        MinePhase::AwaitingChainState => MineAction::FetchChainState,
        MinePhase::AwaitingSearch => MineAction::RunSearch,
        MinePhase::AwaitingRewardRate => MineAction::FetchRewardRate,
        MinePhase::AwaitingSubmission => MineAction::SubmitSolution,
    }
}

/// A landed submission ends the cycle: the solution is dropped and fresh
/// chain state must be fetched before the next search — a stale challenge is
/// never reused after a successful submission.
pub proof fn lemma_fresh_challenge_after_landing(c: MineCycle)
    requires
        c.phase is AwaitingSubmission,
    ensures
        mine_step_spec(c, MineEvent::SubmissionLanded).0.phase is AwaitingChainState,
        mine_step_spec(c, MineEvent::SubmissionLanded).0.solution is None,
{
}

} // verus!
