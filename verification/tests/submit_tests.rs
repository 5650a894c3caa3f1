use ore_cli::submit::{
    first_landed, submit_machine, submit_step, ConfirmationStatus, SubmitAction, SubmitConfig,
    SubmitEvent, SubmitMachine, SubmitPhase, MIN_BALANCE,
};

fn config(skip_confirm: bool, confirm_retries: usize, gateway_retries: usize) -> SubmitConfig {
    SubmitConfig { skip_confirm, confirm_retries, confirm_interval: 4, gateway_retries }
}

fn ready_machine(cfg: SubmitConfig) -> SubmitMachine {
    let mut m = submit_machine(cfg);
    let a = submit_step(&mut m, SubmitEvent::BalanceFetched { lamports: 1_000_000 });
    assert!(matches!(a, SubmitAction::BuildSignSubmit));
    m
}

#[test]
fn low_balance_aborts_before_any_submission() {
    // Balance of 100,000 base units is below the 500,000 floor: the engine's
    // very first verdict is the fatal abort; it never asks for a submission.
    let mut m = submit_machine(config(false, 3, 40));
    let a = submit_step(&mut m, SubmitEvent::BalanceFetched { lamports: 100_000 });
    assert!(matches!(a, SubmitAction::AbortInsufficientBalance));
    assert!(matches!(m.phase, SubmitPhase::InsufficientBalance));
    assert_eq!(m.sig_count, 0);
}

#[test]
fn balance_floor_is_inclusive() {
    let mut m = submit_machine(config(false, 3, 40));
    let a = submit_step(&mut m, SubmitEvent::BalanceFetched { lamports: MIN_BALANCE });
    assert!(matches!(a, SubmitAction::AbortInsufficientBalance));
    let mut m2 = submit_machine(config(false, 3, 40));
    let a2 = submit_step(&mut m2, SubmitEvent::BalanceFetched { lamports: MIN_BALANCE + 1 });
    assert!(matches!(a2, SubmitAction::BuildSignSubmit));
}

#[test]
fn always_failing_submit_makes_exactly_gateway_retries_plus_one_attempts() {
    let gateway_retries = 5usize;
    let mut m = ready_machine(config(false, 3, gateway_retries));
    // The ready machine has been asked for attempt 1 already.
    let mut attempts_made = 1usize;
    loop {
        match submit_step(&mut m, SubmitEvent::SubmitFailed) {
            SubmitAction::BackoffThenResubmit => {
                attempts_made += 1;
                assert!(attempts_made <= gateway_retries + 1, "too many attempts");
            }
            SubmitAction::ReturnMaxRetries => break,
            other => panic!("unexpected action {:?}", other),
        }
    }
    assert_eq!(attempts_made, gateway_retries + 1);
    assert!(matches!(m.phase, SubmitPhase::Exhausted));
}

#[test]
fn older_finalized_signature_wins_over_newer_processed() {
    // Attempt 1 submits signature A, polls expire; attempt 2 submits B.
    // A poll then reports A finalized and B processed: success is keyed to A
    // (history index 0).
    let confirm_retries = 2usize;
    let mut m = ready_machine(config(false, confirm_retries, 10));
    // attempt 1: submit ok -> signature A appended
    let a = submit_step(&mut m, SubmitEvent::Submitted);
    assert!(matches!(a, SubmitAction::WaitAndPoll { interval_seconds: 4 }));
    assert_eq!(m.sig_count, 1);
    // both polls of attempt 1 see nothing
    let a = submit_step(&mut m, SubmitEvent::StatusesFetched { statuses: vec![None] });
    assert!(matches!(a, SubmitAction::WaitAndPoll { .. }));
    let a = submit_step(&mut m, SubmitEvent::StatusesFetched { statuses: vec![None] });
    assert!(matches!(a, SubmitAction::BackoffThenResubmit));
    // attempt 2: submit ok -> signature B appended
    let a = submit_step(&mut m, SubmitEvent::Submitted);
    assert!(matches!(a, SubmitAction::WaitAndPoll { .. }));
    assert_eq!(m.sig_count, 2);
    // the poll now covers both signatures, oldest first
    let statuses = vec![
        Some(ConfirmationStatus::Finalized),
        Some(ConfirmationStatus::Processed),
    ];
    let a = submit_step(&mut m, SubmitEvent::StatusesFetched { statuses });
    match a {
        SubmitAction::ReturnLanded { sig_index } => assert_eq!(sig_index, 0),
        other => panic!("unexpected action {:?}", other),
    }
}

#[test]
fn processed_alone_is_not_enough() {
    let mut m = ready_machine(config(false, 3, 10));
    submit_step(&mut m, SubmitEvent::Submitted);
    let statuses = vec![Some(ConfirmationStatus::Processed)];
    let a = submit_step(&mut m, SubmitEvent::StatusesFetched { statuses });
    assert!(matches!(a, SubmitAction::WaitAndPoll { .. }));
}

#[test]
fn confirmed_is_enough() {
    let mut m = ready_machine(config(false, 3, 10));
    submit_step(&mut m, SubmitEvent::Submitted);
    let statuses = vec![Some(ConfirmationStatus::Confirmed)];
    let a = submit_step(&mut m, SubmitEvent::StatusesFetched { statuses });
    assert!(matches!(a, SubmitAction::ReturnLanded { sig_index: 0 }));
}

#[test]
fn skip_confirmation_returns_right_after_submit() {
    let mut m = ready_machine(config(true, 3, 10));
    let a = submit_step(&mut m, SubmitEvent::Submitted);
    assert!(matches!(a, SubmitAction::ReturnLanded { sig_index: 0 }));
    assert!(matches!(m.phase, SubmitPhase::Landed { sig_index: 0 }));
}

#[test]
fn status_query_failure_is_transient() {
    let mut m = ready_machine(config(false, 2, 10));
    submit_step(&mut m, SubmitEvent::Submitted);
    let a = submit_step(&mut m, SubmitEvent::StatusQueryFailed);
    assert!(matches!(a, SubmitAction::WaitAndPoll { .. }));
    let a = submit_step(&mut m, SubmitEvent::StatusQueryFailed);
    // the poll budget (2) is spent: the attempt ends and a resubmit follows
    assert!(matches!(a, SubmitAction::BackoffThenResubmit));
}

#[test]
fn first_landed_picks_oldest() {
    assert_eq!(first_landed(&Vec::<Option<ConfirmationStatus>>::new()), None);
    assert_eq!(first_landed(&vec![None, Some(ConfirmationStatus::Processed)]), None);
    assert_eq!(
        first_landed(&vec![None, Some(ConfirmationStatus::Confirmed)]),
        Some(1)
    );
    assert_eq!(
        first_landed(&vec![
            Some(ConfirmationStatus::Confirmed),
            Some(ConfirmationStatus::Finalized)
        ]),
        Some(0)
    );
}

#[test]
fn miner_engine_carries_budgets() {
    let miner = ore_cli::Miner::new("http://localhost:8899".to_string(), 9, None, 3, 4, 40);
    let m = miner.submit_engine(false);
    assert_eq!(m.config.confirm_retries, 3);
    assert_eq!(m.config.confirm_interval, 4);
    assert_eq!(m.config.gateway_retries, 40);
    assert!(!m.config.skip_confirm);
    assert_eq!(m.attempts, 0);
}
