use vstd::prelude::*;

verus! {

use vstd::arithmetic::div_mod::{lemma_div_is_ordered, lemma_div_multiples_vanish};
use vstd::arithmetic::mul::lemma_mul_inequality;

/// A swap intent: immutable once created, produced by an external strategy
/// component. Amounts are in the smallest denomination of the input asset.
pub struct SwapIntent {
    pub route: String,
    pub input_mint: String,
    pub output_mint: String,
    pub amount_in: u64,
    pub slippage_bps: u16,
    pub wallet_id: String,
}

/// The mathematical model of a swap intent.
pub ghost struct SwapIntentView {
    pub route: Seq<char>,
    pub input_mint: Seq<char>,
    pub output_mint: Seq<char>,
    pub amount_in: u64,
    pub slippage_bps: u16,
    pub wallet_id: Seq<char>,
}

impl View for SwapIntent {
    type V = SwapIntentView;

    open spec fn view(&self) -> SwapIntentView {
        SwapIntentView {
            route: self.route@,
            input_mint: self.input_mint@,
            output_mint: self.output_mint@,
            amount_in: self.amount_in,
            slippage_bps: self.slippage_bps,
            wallet_id: self.wallet_id@,
        }
    }
}

/// The flat-discount fallback quote policy pays out this numerator over this
/// denominator of the input amount. It is a stand-in for a real quoting
/// capability, not a degraded state: the result still reports `ok`.
pub const FALLBACK_PAYOUT_NUM: u64 = 95;

/// Denominator of the flat-discount fallback payout ratio.
pub const FALLBACK_PAYOUT_DEN: u64 = 100;

/// The price impact the fallback policy reports, in basis points; its
/// documented bound is that it never exceeds the discount itself (500 bps).
pub const FALLBACK_IMPACT_BPS: u32 = 500;

/// A simulation result: derived entirely from the intent and the quote
/// policy, never persisted. The price impact is a ratio in basis points.
pub struct SimResult {
    pub ok: bool,
    pub expected_output: u64,
    pub price_impact_bps: u32,
    pub error: Option<String>,
}

/// The mathematical model of a simulation result.
pub ghost struct SimResultView {
    pub ok: bool,
    pub expected_output: u64,
    pub price_impact_bps: u32,
    pub error: Option<Seq<char>>,
}

impl View for SimResult {
    type V = SimResultView;

    open spec fn view(&self) -> SimResultView {
        SimResultView {
            ok: self.ok,
            expected_output: self.expected_output,
            price_impact_bps: self.price_impact_bps,
            error: match self.error {
                Some(e) => Some(e@),
                None => None,
            },
        }
    }
}

/// The expected output of the fallback policy: the flat-discounted input
/// amount, rounded down.
pub open spec fn spec_expected_output(amount_in: u64) -> u64 {
    (amount_in * FALLBACK_PAYOUT_NUM / (FALLBACK_PAYOUT_DEN as int)) as u64
}

/// What simulation returns: a function of the intent alone, under the
/// fallback policy, always reporting success.
pub open spec fn spec_simulate(intent: SwapIntentView) -> SimResultView {
    SimResultView {
        ok: true,
        expected_output: spec_expected_output(intent.amount_in),
        price_impact_bps: FALLBACK_IMPACT_BPS,
        error: None,
    }
}

/// The discounted amount never exceeds the input amount.
proof fn lemma_expected_output_bounded(amount_in: u64)
    ensures
        0 <= amount_in * FALLBACK_PAYOUT_NUM / (FALLBACK_PAYOUT_DEN as int) <= amount_in,
{
    let a = amount_in as int;
    lemma_mul_inequality(FALLBACK_PAYOUT_NUM as int, FALLBACK_PAYOUT_DEN as int, a);
    lemma_div_is_ordered(a * 95, a * 100, 100);
    lemma_div_multiples_vanish(a, 100);
    assert(100 * a == a * 100);
    lemma_div_is_ordered(0, a * 95, 100);
}

/// The simulate stage: a pure function of the intent. With no real quote
/// source wired in, the flat-discount fallback policy applies and the result
/// still reports `ok`. Wallet and endpoint state are never touched.
pub fn simulate(intent: &SwapIntent) -> (r: SimResult)
    ensures
        r@ == spec_simulate(intent@),
        r.ok,
{
    proof {
        lemma_expected_output_bounded(intent.amount_in);
    }
    let wide: u128 = (intent.amount_in as u128) * (FALLBACK_PAYOUT_NUM as u128) / (
    FALLBACK_PAYOUT_DEN as u128);
    let expected_output: u64 = wide as u64;
    SimResult { ok: true, expected_output, price_impact_bps: FALLBACK_IMPACT_BPS, error: None }
}

/// Law: simulation is deterministic — for a fixed intent under the fixed
/// fallback policy, every call returns the same result.
pub proof fn lemma_simulate_deterministic(a: SwapIntentView, b: SwapIntentView)
    requires
        a == b,
    ensures
        spec_simulate(a) == spec_simulate(b),
{
}

/// The retry budget of the submit stage: the number of send attempts allowed
/// against transient transport errors before the failure is surfaced.
pub const RETRY_BUDGET: u32 = 3;

/// Post-trade settlement data, as read from the chain or program response:
/// the filled quantity and the fill price in millionths of a unit.
#[derive(Clone, Copy, Debug, PartialEq, Eq, Structural)]
pub struct FillData {
    pub qty: u64,
    pub price_micro: u64,
}

/// What one send attempt through the transport came back with. The caller
/// performs the network send and hands the outcome in as a plain value.
pub enum SendOutcome {
    /// The transaction was sent and confirmed; carries the signature string
    /// and whatever settlement data the chain or program response held —
    /// `None` when the response held none.
    Sent(String, Option<FillData>),
    /// A transient transport failure; carries the error message.
    Transport(String),
    /// The chain rejected the transaction, in preflight or execution; not
    /// transient, and never retried with the same transaction.
    Rejected(String),
    /// The confirmation wait ran out; the outcome is unknown and must be
    /// reconciled by signature lookup, not blindly retried.
    TimedOut(String),
}

/// The mathematical model of a send outcome.
pub ghost enum SendOutcomeView {
    Sent(Seq<char>, Option<FillData>),
    Transport(Seq<char>),
    Rejected(Seq<char>),
    TimedOut(Seq<char>),
}

impl View for SendOutcome {
    type V = SendOutcomeView;

    open spec fn view(&self) -> SendOutcomeView {
        match self {
            SendOutcome::Sent(s, fill) => SendOutcomeView::Sent(s@, *fill),
            SendOutcome::Transport(s) => SendOutcomeView::Transport(s@),
            SendOutcome::Rejected(s) => SendOutcomeView::Rejected(s@),
            SendOutcome::TimedOut(s) => SendOutcomeView::TimedOut(s@),
        }
    }
}

/// The string carried by a send outcome: its error message, or the signature
/// of a confirmed send.
pub open spec fn outcome_message(o: SendOutcomeView) -> Seq<char> {
    match o {
        SendOutcomeView::Sent(m, _) => m,
        SendOutcomeView::Transport(m) => m,
        SendOutcomeView::Rejected(m) => m,
        SendOutcomeView::TimedOut(m) => m,
    }
}

/// A normalized submission result: created once per submission, immutable
/// after construction. On failure, `confirmed` is false and `error` carries
/// the message; the process never terminates over a submission failure.
/// `fill` is the settlement data the chain reported; `None` on a confirmed
/// send is the distinct "fill data unavailable" condition — figures are
/// never made up for it.
pub struct SubmitResult {
    pub signature: String,
    pub confirmed: bool,
    pub fill: Option<FillData>,
    pub error: Option<String>,
}

/// The mathematical model of a submission result.
pub ghost struct SubmitResultView {
    pub signature: Seq<char>,
    pub confirmed: bool,
    pub fill: Option<FillData>,
    pub error: Option<Seq<char>>,
}

impl View for SubmitResult {
    type V = SubmitResultView;

    open spec fn view(&self) -> SubmitResultView {
        SubmitResultView {
            signature: self.signature@,
            confirmed: self.confirmed,
            fill: self.fill,
            error: match self.error {
                Some(e) => Some(e@),
                None => None,
            },
        }
    }
}

/// The normalized result of a confirmed submission: the settlement data is
/// passed through exactly as the chain reported it, and its absence is kept
/// visible as `fill == None` rather than papered over with figures.
pub open spec fn spec_success_result(sig: Seq<char>, fill: Option<FillData>) -> SubmitResultView {
    SubmitResultView { signature: sig, confirmed: true, fill, error: None }
}

/// The normalized result of a failed submission: unconfirmed, no fill, and
/// the error message kept.
pub open spec fn spec_failure_result(msg: Seq<char>) -> SubmitResultView {
    SubmitResultView { signature: Seq::empty(), confirmed: false, fill: None, error: Some(msg) }
}

/// What the submit stage decides after one attempt: try again, or stop with
/// a normalized result.
pub enum SubmitStep {
    /// The failure was transient and the retry budget is not exhausted.
    Retry,
    /// The attempt settled the submission, one way or the other.
    Done(SubmitResult),
}

/// The mathematical model of a submit-stage decision.
pub ghost enum SubmitStepView {
    Retry,
    Done(SubmitResultView),
}

impl View for SubmitStep {
    type V = SubmitStepView;

    open spec fn view(&self) -> SubmitStepView {
        match self {
            SubmitStep::Retry => SubmitStepView::Retry,
            SubmitStep::Done(r) => SubmitStepView::Done(r@),
        }
    }
}

/// The submit stage's decision after attempt number `attempt` (1-based) came
/// back with `o`: success settles at once; a transient transport failure is
/// retried while the budget allows and surfaced unconfirmed after that; an
/// on-chain rejection or a confirmation timeout is surfaced at once, never
/// retried.
pub open spec fn spec_submit_step(attempt: int, o: SendOutcomeView) -> SubmitStepView {
    match o {
        SendOutcomeView::Sent(sig, fill) => SubmitStepView::Done(spec_success_result(sig, fill)),
        SendOutcomeView::Transport(msg) => if attempt < RETRY_BUDGET as int {
            SubmitStepView::Retry
        } else {
            SubmitStepView::Done(spec_failure_result(msg))
        },
        SendOutcomeView::Rejected(msg) => SubmitStepView::Done(spec_failure_result(msg)),
        SendOutcomeView::TimedOut(msg) => SubmitStepView::Done(spec_failure_result(msg)),
    }
}

/// Builds the normalized failure result around an error message.
fn failure_result(msg: &String) -> (r: SubmitResult)
    ensures
        r@ == spec_failure_result(msg@),
{
    SubmitResult { signature: String::new(), confirmed: false, fill: None, error: Some(msg.clone()) }
}

/// One step of the submit stage: the decision that follows from the outcome
/// of send attempt number `attempt` (1-based).
pub fn submit_step(attempt: u32, outcome: &SendOutcome) -> (r: SubmitStep)
    ensures
        r@ == spec_submit_step(attempt as int, outcome@),
{
    match outcome {
        SendOutcome::Sent(sig, fill) => SubmitStep::Done(
            SubmitResult { signature: sig.clone(), confirmed: true, fill: *fill, error: None },
        ),
        SendOutcome::Transport(msg) => {
            if attempt < RETRY_BUDGET {
                SubmitStep::Retry
            } else {
                SubmitStep::Done(failure_result(msg))
            }
        },
        SendOutcome::Rejected(msg) => SubmitStep::Done(failure_result(msg)),
        SendOutcome::TimedOut(msg) => SubmitStep::Done(failure_result(msg)),
    }
}

/// The submission the submit stage settles on when the transport answers the
/// attempts, starting from attempt number `attempt` (1-based), with the given
/// outcomes in order, together with the number of the attempt it stopped at.
/// Should the transport stop answering while a retry was still allowed, the
/// transient failure is surfaced with the attempts actually made.
pub open spec fn spec_run_submit(outcomes: Seq<SendOutcomeView>, attempt: int) -> (
    SubmitResultView,
    int,
)
    decreases outcomes.len(),
{
    if outcomes.len() == 0 {
        (spec_failure_result(Seq::empty()), 0)
    } else {
        match spec_submit_step(attempt, outcomes[0]) {
            SubmitStepView::Done(r) => (r, attempt),
            SubmitStepView::Retry => if outcomes.len() == 1 {
                (spec_failure_result(outcome_message(outcomes[0])), attempt)
            } else {
                spec_run_submit(outcomes.drop_first(), attempt + 1)
            },
        }
    }
}

/// Drives the submit stage over the outcomes the transport produced, one per
/// attempt in order, and returns the normalized result together with the
/// number of attempts made. The stage never rotates the endpoint itself:
/// failover is the caller's decision.
pub fn run_submit(outcomes: &Vec<SendOutcome>) -> (r: (SubmitResult, u32))
    requires
        outcomes@.len() >= 1,
    ensures
        r.0@ == spec_run_submit(outcomes@.map_values(|o: SendOutcome| o@), 1).0,
        r.1 as int == spec_run_submit(outcomes@.map_values(|o: SendOutcome| o@), 1).1,
{
    let ghost full = outcomes@.map_values(|o: SendOutcome| o@);
    proof {
        assert(full.skip(0) =~= full);
    }
    let n = outcomes.len();
    let mut i: usize = 0;
    loop
        invariant
            0 <= i < n,
            n == outcomes@.len(),
            i + 1 <= RETRY_BUDGET,
            full == outcomes@.map_values(|o: SendOutcome| o@),
            spec_run_submit(full, 1) == spec_run_submit(full.skip(i as int), i + 1),
        decreases n - i,
    {
        let attempt: u32 = (i as u32) + 1;
        proof {
            assert(full.skip(i as int)[0] == full[i as int]);
        }
        match submit_step(attempt, &outcomes[i]) {
            SubmitStep::Done(res) => {
                return (res, attempt);
            },
            SubmitStep::Retry => {
                if i + 1 == n {
                    let r = match &outcomes[i] {
                        SendOutcome::Sent(m, _) => failure_result(m),
                        SendOutcome::Transport(m) => failure_result(m),
                        SendOutcome::Rejected(m) => failure_result(m),
                        SendOutcome::TimedOut(m) => failure_result(m),
                    };
                    return (r, attempt);
                }
                proof {
                    assert(full.skip(i as int).drop_first() =~= full.skip(i as int + 1));
                }
                i += 1;
            },
        }
    }
}

/// Law: when every outcome is a transient transport failure and the
/// transport answers at least the whole retry budget, the submit stage makes
/// exactly `RETRY_BUDGET` attempts and settles on an unconfirmed result that
/// keeps the last attempt's error message.
pub proof fn lemma_submit_exhausts_budget(outcomes: Seq<SendOutcomeView>)
    requires
        outcomes.len() >= RETRY_BUDGET,
        forall|i: int| 0 <= i < outcomes.len() ==> outcomes[i] is Transport,
    ensures
        spec_run_submit(outcomes, 1).1 == RETRY_BUDGET as int,
        !spec_run_submit(outcomes, 1).0.confirmed,
        spec_run_submit(outcomes, 1).0.error == Some(
            outcome_message(outcomes[RETRY_BUDGET as int - 1]),
        ),
{
    let s1 = outcomes.drop_first();
    let s2 = s1.drop_first();
    assert(outcomes[0] is Transport);
    assert(s1[0] == outcomes[1]);
    assert(s2[0] == outcomes[2]);
    assert(spec_run_submit(outcomes, 1) == spec_run_submit(s1, 2));
    assert(spec_run_submit(s1, 2) == spec_run_submit(s2, 3));
    assert(spec_run_submit(s2, 3) == (
        spec_failure_result(outcome_message(outcomes[2])),
        3int,
    ));
}

/// Law: a confirmed first attempt settles the submission at once, keeping
/// the signature and exactly the settlement data the chain reported — absent
/// data stays absent; an on-chain rejection or a timeout is surfaced at
/// once, never retried.
pub proof fn lemma_submit_settles_at_once(outcomes: Seq<SendOutcomeView>, attempt: int)
    requires
        outcomes.len() >= 1,
        1 <= attempt,
    ensures
        outcomes[0] matches SendOutcomeView::Sent(sig, fill) ==> spec_run_submit(outcomes, attempt)
            == (spec_success_result(sig, fill), attempt),
        (outcomes[0] is Rejected || outcomes[0] is TimedOut) ==> spec_run_submit(outcomes, attempt)
            == (spec_failure_result(outcome_message(outcomes[0])), attempt),
{
}

} // verus!
