//! A model of each complete request: which adapter calls a flow makes,
//! in order, and what verdict it reaches, as a function of the raw
//! inputs and of the adapter's replies. Each branch mirrors the
//! contract of the corresponding step function in `flow`, over the same
//! predicates (`address_accepted`, `amount_within_limit`), so the
//! lemmas below state the flow's laws: what is called, and with which
//! status each request ends.

use crate::address::address_accepted;
use crate::errors::{ApiError, UpstreamStage};
use crate::units::{amount_within_limit, LAMPORTS_PER_SOL, SETTLEMENT_DELAY_SECS};
use vstd::prelude::*;

verus! {

/// One action the unverified shell performs against the RPC adapter,
/// or the settlement wait between submission and the re-read.
pub enum AdapterCall {
    /// Read the wallet's balance.
    ReadBalance,
    /// Submit an airdrop request for this many base units.
    Submit(u64),
    /// Wait this many seconds for settlement.
    Settle(u64),
}

/// The adapter calls the airdrop flow gives rise to, in order. The
/// final balance read happens whenever submission succeeded, whatever
/// that read then returns.
pub open spec fn airdrop_call_plan(
    wallet: Seq<char>,
    sol: u64,
    initial: Result<u64, String>,
    submit: Result<String, String>,
) -> Seq<AdapterCall> {
    if !address_accepted(wallet) || !amount_within_limit(sol) {
        seq![]
    } else if initial is Err {
        seq![AdapterCall::ReadBalance]
    } else if submit is Err {
        seq![AdapterCall::ReadBalance, AdapterCall::Submit((sol * LAMPORTS_PER_SOL) as u64)]
    } else {
        seq![
            AdapterCall::ReadBalance,
            AdapterCall::Submit((sol * LAMPORTS_PER_SOL) as u64),
            AdapterCall::Settle(SETTLEMENT_DELAY_SECS),
            AdapterCall::ReadBalance,
        ]
    }
}

/// The verdict of the airdrop flow: on success the baseline and the
/// post-wait balance, otherwise the first error met, exactly as the
/// step functions produce it.
pub open spec fn airdrop_verdict(
    wallet: Seq<char>,
    sol: u64,
    initial: Result<u64, String>,
    submit: Result<String, String>,
    final_read: Result<u64, String>,
) -> Result<(u64, u64), ApiError> {
    if !address_accepted(wallet) {
        Err(ApiError::InvalidAddress)
    } else if !amount_within_limit(sol) {
        Err(ApiError::AmountTooLarge)
    } else if initial is Err {
        Err(ApiError::Upstream(UpstreamStage::InitialBalance, initial->Err_0))
    } else if submit is Err {
        Err(ApiError::Upstream(UpstreamStage::Submission, submit->Err_0))
    } else if final_read is Err {
        Err(ApiError::Upstream(UpstreamStage::FinalBalance, final_read->Err_0))
    } else {
        Ok((initial->Ok_0, final_read->Ok_0))
    }
}

/// The adapter calls the balance lookup gives rise to.
pub open spec fn balance_call_plan(wallet: Seq<char>) -> Seq<AdapterCall> {
    if address_accepted(wallet) {
        seq![AdapterCall::ReadBalance]
    } else {
        seq![]
    }
}

/// The verdict of the balance lookup.
pub open spec fn balance_verdict(wallet: Seq<char>, read: Result<u64, String>) -> Result<
    u64,
    ApiError,
> {
    if !address_accepted(wallet) {
        Err(ApiError::InvalidAddress)
    } else if read is Err {
        Err(ApiError::Upstream(UpstreamStage::BalanceLookup, read->Err_0))
    } else {
        Ok(read->Ok_0)
    }
}

/// A string that is not a valid address is rejected by both flows with
/// status 400, and neither flow plans a single adapter call.
pub proof fn lemma_invalid_address_no_calls(
    wallet: Seq<char>,
    sol: u64,
    initial: Result<u64, String>,
    submit: Result<String, String>,
    final_read: Result<u64, String>,
    read: Result<u64, String>,
)
    requires
        !address_accepted(wallet),
    ensures
        airdrop_call_plan(wallet, sol, initial, submit) =~= Seq::<AdapterCall>::empty(),
        balance_call_plan(wallet) =~= Seq::<AdapterCall>::empty(),
        airdrop_verdict(wallet, sol, initial, submit, final_read) == Err::<(u64, u64), ApiError>(
            ApiError::InvalidAddress,
        ),
        balance_verdict(wallet, read) == Err::<u64, ApiError>(ApiError::InvalidAddress),
        ApiError::InvalidAddress.spec_status() == 400,
{
}

/// An accepted request — valid address, amount within the ceiling —
/// whose adapter calls all succeed gives rise to exactly one
/// submission and exactly two balance reads, in this order: baseline
/// read, submission, settlement wait, final read; and the verdict
/// pairs the two readings.
pub proof fn lemma_accepted_airdrop_exact_calls(
    wallet: Seq<char>,
    sol: u64,
    initial: Result<u64, String>,
    submit: Result<String, String>,
    final_read: Result<u64, String>,
)
    requires
        address_accepted(wallet),
        amount_within_limit(sol),
        initial is Ok,
        submit is Ok,
        final_read is Ok,
    ensures
        airdrop_call_plan(wallet, sol, initial, submit) =~= seq![
            AdapterCall::ReadBalance,
            AdapterCall::Submit((sol * LAMPORTS_PER_SOL) as u64),
            AdapterCall::Settle(SETTLEMENT_DELAY_SECS),
            AdapterCall::ReadBalance,
        ],
        airdrop_verdict(wallet, sol, initial, submit, final_read) == Ok::<(u64, u64), ApiError>(
            (initial->Ok_0, final_read->Ok_0),
        ),
{
}

/// An amount strictly over the ceiling is rejected with status 400 and
/// the flow plans no adapter call at all — in particular it never
/// submits, whatever the adapter would have replied; and since the
/// plan is a function of the request alone, repeating the same
/// over-limit request can never trigger a submission either.
pub proof fn lemma_over_limit_never_submits(
    wallet: Seq<char>,
    sol: u64,
    initial: Result<u64, String>,
    submit: Result<String, String>,
    final_read: Result<u64, String>,
)
    requires
        !amount_within_limit(sol),
    ensures
        airdrop_call_plan(wallet, sol, initial, submit) =~= Seq::<AdapterCall>::empty(),
        forall|i: int|
            0 <= i < airdrop_call_plan(wallet, sol, initial, submit).len() ==> !(airdrop_call_plan(
                wallet,
                sol,
                initial,
                submit,
            )[i] is Submit),
        address_accepted(wallet) ==> airdrop_verdict(wallet, sol, initial, submit, final_read)
            == Err::<(u64, u64), ApiError>(ApiError::AmountTooLarge),
        ApiError::AmountTooLarge.spec_status() == 400,
{
}

/// A failed submission ends the flow with status 500: the plan stops
/// at the submission — no settlement wait and no second balance read
/// follow it.
pub proof fn lemma_submission_failure_stops_flow(
    wallet: Seq<char>,
    sol: u64,
    initial: Result<u64, String>,
    submit: Result<String, String>,
    final_read: Result<u64, String>,
)
    requires
        address_accepted(wallet),
        amount_within_limit(sol),
        initial is Ok,
        submit is Err,
    ensures
        airdrop_call_plan(wallet, sol, initial, submit) =~= seq![
            AdapterCall::ReadBalance,
            AdapterCall::Submit((sol * LAMPORTS_PER_SOL) as u64),
        ],
        forall|i: int|
            0 <= i < airdrop_call_plan(wallet, sol, initial, submit).len() ==> !(airdrop_call_plan(
                wallet,
                sol,
                initial,
                submit,
            )[i] is Settle),
        airdrop_verdict(wallet, sol, initial, submit, final_read) == Err::<(u64, u64), ApiError>(
            ApiError::Upstream(UpstreamStage::Submission, submit->Err_0),
        ),
        airdrop_verdict(wallet, sol, initial, submit, final_read)->Err_0.spec_status() == 500,
{
    let plan = airdrop_call_plan(wallet, sol, initial, submit);
    assert forall|i: int| 0 <= i < plan.len() implies !(plan[i] is Settle) by {
        assert(plan.len() == 2);
    }
}

} // verus!
