use sol_exec::pipeline::{run_submit, submit_step};
use sol_exec::{ExecError, FillData, SendOutcome, SolExecutor, SubmitStep, SwapIntent};
use solana_sdk::signature::Keypair;

fn intent(amount_in: u64, slippage_bps: u16, wallet_id: &str) -> SwapIntent {
    SwapIntent {
        route: "direct".to_string(),
        input_mint: "So11111111111111111111111111111111111111112".to_string(),
        output_mint: "EPjFWdd5AufqSSqeM2qN1xzybapC8G4wEGGkZwyTDt1v".to_string(),
        amount_in,
        slippage_bps,
        wallet_id: wallet_id.to_string(),
    }
}

fn executor_with(endpoints: Vec<&str>) -> SolExecutor {
    SolExecutor::new(endpoints.into_iter().map(|s| s.to_string()).collect()).unwrap()
}

#[test]
fn simulate_is_deterministic() {
    let ex = executor_with(vec!["http://localhost:8899"]);
    let i = intent(123_456_789, 75, "w1");
    let a = ex.simulate_swap(&i).unwrap();
    let b = ex.simulate_swap(&i).unwrap();
    assert_eq!(a.ok, b.ok);
    assert_eq!(a.expected_output, b.expected_output);
    assert_eq!(a.price_impact_bps, b.price_impact_bps);
    assert_eq!(a.error, b.error);
}

#[test]
fn simulate_fallback_policy_exact_figures() {
    let ex = executor_with(vec!["http://localhost:8899"]);
    let r = ex.simulate_swap(&intent(1_000_000, 50, "w1")).unwrap();
    assert!(r.ok);
    assert_eq!(r.expected_output, 950_000);
    assert!(r.price_impact_bps <= 500);
    assert!(r.error.is_none());
}

#[test]
fn pre_sign_fails_without_credential_before_any_network_step() {
    let mut ex = executor_with(vec!["http://localhost:8899"]);
    ex.add_watch_only_wallet("watch".to_string(), "some-public-key".to_string())
        .unwrap();

    // The pre-flight check a caller runs before fetching an anchor value:
    // it refuses the watch-only wallet, so no network call is made at all.
    let id = "watch".to_string();
    assert_eq!(ex.can_pre_sign(&id), Err(ExecError::CredentialUnavailable));

    // The stage itself refuses too, and no credential is involved anywhere.
    let anchor = [0u8; 32];
    assert!(matches!(
        ex.pre_sign_swap(&id, &intent(1_000, 50, "watch"), &anchor),
        Err(ExecError::CredentialUnavailable)
    ));

    // An unknown wallet is a distinct configuration error.
    assert_eq!(
        ex.can_pre_sign(&"ghost".to_string()),
        Err(ExecError::NotFound)
    );
}

#[test]
fn pre_sign_produces_signed_transaction() {
    let mut ex = executor_with(vec!["http://localhost:8899"]);
    let keypair = Keypair::new();
    ex.add_wallet("w1".to_string(), keypair.to_bytes().to_vec())
        .unwrap();
    let anchor = [7u8; 32];
    let st = ex
        .pre_sign_swap(&"w1".to_string(), &intent(1_000_000, 50, "w1"), &anchor)
        .unwrap();
    assert_eq!(st.wallet_id, "w1");
    assert_eq!(st.amount_in, 1_000_000);
    let tx = st.into_transaction();
    // Fully signed: the placeholder message carries exactly one signature,
    // and verification against the embedded message succeeds.
    assert_eq!(tx.signatures.len(), 1);
    assert!(tx.is_signed());
    assert!(tx.verify().is_ok());
}

#[test]
fn submit_step_success_passes_settlement_data_through() {
    let fill = FillData {
        qty: 949_900,
        price_micro: 1_052,
    };
    let step = submit_step(1, &SendOutcome::Sent("sig123".to_string(), Some(fill)));
    match step {
        SubmitStep::Done(r) => {
            assert!(r.confirmed);
            assert_eq!(r.signature, "sig123");
            assert_eq!(r.fill, Some(fill));
            assert!(r.error.is_none());
        }
        SubmitStep::Retry => panic!("a confirmed send must settle"),
    }
}

#[test]
fn submit_step_missing_fill_data_stays_visible() {
    // A confirmed send whose response held no settlement data surfaces the
    // distinct fill-data-unavailable condition: no figures are made up.
    let step = submit_step(1, &SendOutcome::Sent("sig123".to_string(), None));
    match step {
        SubmitStep::Done(r) => {
            assert!(r.confirmed);
            assert_eq!(r.signature, "sig123");
            assert!(r.fill.is_none());
            assert!(r.error.is_none());
        }
        SubmitStep::Retry => panic!("a confirmed send must settle"),
    }
}

#[test]
fn submit_step_transient_error_retries_within_budget() {
    assert!(matches!(
        submit_step(1, &SendOutcome::Transport("connection reset".to_string())),
        SubmitStep::Retry
    ));
    assert!(matches!(
        submit_step(2, &SendOutcome::Transport("connection reset".to_string())),
        SubmitStep::Retry
    ));
    match submit_step(3, &SendOutcome::Transport("connection reset".to_string())) {
        SubmitStep::Done(r) => {
            assert!(!r.confirmed);
            assert!(r.fill.is_none());
            assert_eq!(r.error.as_deref(), Some("connection reset"));
        }
        SubmitStep::Retry => panic!("the budget is exhausted at the third attempt"),
    }
}

#[test]
fn submit_step_rejection_never_retried() {
    match submit_step(1, &SendOutcome::Rejected("blockhash expired".to_string())) {
        SubmitStep::Done(r) => {
            assert!(!r.confirmed);
            assert_eq!(r.error.as_deref(), Some("blockhash expired"));
        }
        SubmitStep::Retry => panic!("an on-chain rejection is never retried"),
    }
}

#[test]
fn submit_step_timeout_surfaced_at_once() {
    match submit_step(1, &SendOutcome::TimedOut("confirmation wait exceeded".to_string())) {
        SubmitStep::Done(r) => {
            assert!(!r.confirmed);
            assert_eq!(r.error.as_deref(), Some("confirmation wait exceeded"));
        }
        SubmitStep::Retry => panic!("a timeout is surfaced, not retried"),
    }
}

#[test]
fn run_submit_recovers_after_transient_failure() {
    let fill = FillData {
        qty: 950_000,
        price_micro: 1_000,
    };
    let outcomes = vec![
        SendOutcome::Transport("connection reset".to_string()),
        SendOutcome::Sent("sig456".to_string(), Some(fill)),
    ];
    let (result, attempts) = run_submit(&outcomes);
    assert!(result.confirmed);
    assert_eq!(result.signature, "sig456");
    assert_eq!(result.fill, Some(fill));
    assert_eq!(attempts, 2);
}

#[test]
fn end_to_end_pipeline_against_failing_transport() {
    let mut ex = executor_with(vec!["http://localhost:8899"]);
    let keypair = Keypair::new();
    ex.add_wallet("w1".to_string(), keypair.to_bytes().to_vec())
        .unwrap();
    assert_eq!(ex.get_wallet_status(&"w1".to_string()).unwrap().balance, 0);

    let i = intent(1_000_000, 50, "w1");
    let sim = ex.simulate_swap(&i).unwrap();
    assert!(sim.ok);
    assert_eq!(sim.expected_output, 950_000);
    assert!(sim.price_impact_bps <= 500);

    let anchor = [1u8; 32];
    let signed = ex.pre_sign_swap(&"w1".to_string(), &i, &anchor).unwrap();
    assert_eq!(signed.wallet_id, "w1");

    // A transport stub that fails every attempt with a transient error.
    let stub_outcomes: Vec<SendOutcome> = (0..5)
        .map(|n| SendOutcome::Transport(format!("attempt {} refused", n + 1)))
        .collect();
    let (result, attempts) = run_submit(&stub_outcomes);
    assert!(!result.confirmed);
    assert!(result.fill.is_none());
    assert!(result.error.is_some());
    assert!(!result.error.as_deref().unwrap().is_empty());
    // The retry count matches the configured budget exactly.
    assert_eq!(attempts, 3);
}

#[test]
fn simulate_handles_largest_amount_without_overflow() {
    let ex = executor_with(vec!["http://localhost:8899"]);
    let r = ex.simulate_swap(&intent(u64::MAX, 50, "w1")).unwrap();
    let expected = (u64::MAX as u128 * 95 / 100) as u64;
    assert!(r.ok);
    assert_eq!(r.expected_output, expected);
}
