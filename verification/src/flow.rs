//! The airdrop orchestration flow, the balance lookup and the health
//! report. The flow is written as one decision step per adapter call:
//! an unverified shell performs each network action and hands the plain
//! result back to the next step, so every decision — validation, the
//! amount ceiling, error mapping, response assembly — is verified here.
//!
//! Step order: validate the address, check the amount ceiling, then
//! read the baseline balance, submit the airdrop, wait the settlement
//! delay, and re-read the balance. The ceiling is checked before any
//! adapter call, so an over-limit request costs no network traffic;
//! this ordering is pinned by the flow's contracts.

use crate::address::{address_accepted, Wallet};
use crate::errors::{ApiError, UpstreamStage};
use crate::units::{amount_within_limit, LAMPORTS_PER_SOL, MAX_AIRDROP_SOL};
use vstd::prelude::*;

verus! {

/// An accepted airdrop request, before any adapter call: the validated
/// wallet and the base-unit amount to request.
pub struct AirdropStart {
    wallet: Wallet,
    lamports: u64,
}

/// The flow after a successful baseline read: ready for submission.
pub struct AirdropSubmit {
    wallet: Wallet,
    lamports: u64,
    previous: u64,
}

/// The flow after a successful submission: the shell should report the
/// signature, wait the settlement delay, then re-read the balance.
pub struct AirdropSettle {
    wallet: Wallet,
    previous: u64,
    signature: String,
}

/// The finished airdrop flow: the before/after balance comparison.
#[derive(Debug)]
pub struct AirdropReport {
    pub wallet_text: String,
    pub previous_lamports: u64,
    pub new_lamports: u64,
}

/// The finished balance lookup.
#[derive(Debug)]
pub struct BalanceReport {
    pub wallet_text: String,
    pub lamports: u64,
}

/// The health report: a fixed status string and the endpoint in use.
pub struct HealthReport {
    pub status: String,
    pub rpc_url: String,
}

impl AirdropStart {
    /// The validated wallet, for the baseline balance read.
    pub fn wallet(&self) -> (w: &Wallet)
        ensures
            w == self.spec_wallet(),
    {
        &self.wallet
    }

    pub closed spec fn spec_wallet(self) -> Wallet {
        self.wallet
    }

    pub closed spec fn spec_lamports(self) -> u64 {
        self.lamports
    }
}

impl AirdropSubmit {
    /// The validated wallet, for the submission call.
    pub fn wallet(&self) -> (w: &Wallet)
        ensures
            w == self.spec_wallet(),
    {
        &self.wallet
    }

    /// The base-unit amount the shell must submit.
    pub fn lamports(&self) -> (l: u64)
        ensures
            l == self.spec_lamports(),
    {
        self.lamports
    }

    pub closed spec fn spec_wallet(self) -> Wallet {
        self.wallet
    }

    pub closed spec fn spec_lamports(self) -> u64 {
        self.lamports
    }

    pub closed spec fn spec_previous(self) -> u64 {
        self.previous
    }
}

impl AirdropSettle {
    /// The validated wallet, for the post-wait balance read.
    pub fn wallet(&self) -> (w: &Wallet)
        ensures
            w == self.spec_wallet(),
    {
        &self.wallet
    }

    /// The transaction signature the submission returned.
    pub fn signature(&self) -> (s: &String)
        ensures
            s@ == self.spec_signature(),
    {
        &self.signature
    }

    pub closed spec fn spec_wallet(self) -> Wallet {
        self.wallet
    }

    pub closed spec fn spec_previous(self) -> u64 {
        self.previous
    }

    pub closed spec fn spec_signature(self) -> Seq<char> {
        self.signature@
    }
}

/// Opens the airdrop flow: validates the address, then applies the
/// amount ceiling. Both rejections happen before any adapter call.
/// On success the base-unit amount is exactly `sol * LAMPORTS_PER_SOL`.
pub fn airdrop_begin(wallet: String, sol: u64) -> (r: Result<AirdropStart, ApiError>)
    ensures
        r is Ok <==> address_accepted(wallet@) && amount_within_limit(sol),
        !address_accepted(wallet@) ==> r == Err::<AirdropStart, ApiError>(
            ApiError::InvalidAddress,
        ),
        address_accepted(wallet@) && !amount_within_limit(sol) ==> r == Err::<
            AirdropStart,
            ApiError,
        >(ApiError::AmountTooLarge),
        r is Ok ==> {
            let st = r->Ok_0;
            &&& st.spec_wallet().wf()
            &&& st.spec_wallet().spec_text() == wallet@
            &&& st.spec_lamports() == sol * LAMPORTS_PER_SOL
        },
{
    let w = Wallet::parse(wallet)?;
    if sol > MAX_AIRDROP_SOL {
        return Err(ApiError::AmountTooLarge);
    }
    assert(sol * LAMPORTS_PER_SOL <= MAX_AIRDROP_SOL * LAMPORTS_PER_SOL) by (nonlinear_arith)
        requires
            sol <= MAX_AIRDROP_SOL,
    ;
    let lamports: u64 = sol * LAMPORTS_PER_SOL;
    Ok(AirdropStart { wallet: w, lamports })
}

/// Takes the result of the baseline balance read. A failed read aborts
/// the flow with an upstream error for that stage; a successful one
/// records the baseline and releases the submission.
pub fn airdrop_on_initial_balance(st: AirdropStart, read: Result<u64, String>) -> (r: Result<
    AirdropSubmit,
    ApiError,
>)
    ensures
        r is Ok <==> read is Ok,
        read is Err ==> r == Err::<AirdropSubmit, ApiError>(
            ApiError::Upstream(UpstreamStage::InitialBalance, read->Err_0),
        ),
        read is Ok ==> {
            let next = r->Ok_0;
            &&& next.spec_wallet() == st.spec_wallet()
            &&& next.spec_lamports() == st.spec_lamports()
            &&& next.spec_previous() == read->Ok_0
        },
{
    match read {
        Ok(previous) => Ok(
            AirdropSubmit { wallet: st.wallet, lamports: st.lamports, previous },
        ),
        Err(cause) => Err(ApiError::Upstream(UpstreamStage::InitialBalance, cause)),
    }
}

/// Takes the result of the submission call. A failure aborts the flow
/// — no settlement wait and no further balance read follow, since no
/// `AirdropSettle` state exists. Success records the signature.
pub fn airdrop_on_submission(st: AirdropSubmit, submit: Result<String, String>) -> (r: Result<
    AirdropSettle,
    ApiError,
>)
    ensures
        r is Ok <==> submit is Ok,
        submit is Err ==> r == Err::<AirdropSettle, ApiError>(
            ApiError::Upstream(UpstreamStage::Submission, submit->Err_0),
        ),
        submit is Ok ==> {
            let next = r->Ok_0;
            &&& next.spec_wallet() == st.spec_wallet()
            &&& next.spec_previous() == st.spec_previous()
            &&& next.spec_signature() == submit->Ok_0@
        },
{
    match submit {
        Ok(signature) => Ok(
            AirdropSettle { wallet: st.wallet, previous: st.previous, signature },
        ),
        Err(cause) => Err(ApiError::Upstream(UpstreamStage::Submission, cause)),
    }
}

/// Takes the result of the post-wait balance read and closes the flow:
/// the report pairs the baseline with the fresh reading.
pub fn airdrop_on_final_balance(st: AirdropSettle, read: Result<u64, String>) -> (r: Result<
    AirdropReport,
    ApiError,
>)
    ensures
        r is Ok <==> read is Ok,
        read is Err ==> r == Err::<AirdropReport, ApiError>(
            ApiError::Upstream(UpstreamStage::FinalBalance, read->Err_0),
        ),
        read is Ok ==> {
            let rep = r->Ok_0;
            &&& rep.wallet_text@ == st.spec_wallet().spec_text()
            &&& rep.previous_lamports == st.spec_previous()
            &&& rep.new_lamports == read->Ok_0
        },
{
    match read {
        Ok(new_lamports) => {
            let wallet_text = st.wallet.text().clone();
            Ok(
                AirdropReport {
                    wallet_text,
                    previous_lamports: st.previous,
                    new_lamports,
                },
            )
        },
        Err(cause) => Err(ApiError::Upstream(UpstreamStage::FinalBalance, cause)),
    }
}

/// Opens the balance lookup: validates the address and nothing else.
pub fn balance_begin(wallet: String) -> (r: Result<Wallet, ApiError>)
    ensures
        r is Ok <==> address_accepted(wallet@),
        r is Ok ==> r->Ok_0.wf() && r->Ok_0.spec_text() == wallet@,
        r is Err ==> r->Err_0 == ApiError::InvalidAddress,
{
    Wallet::parse(wallet)
}

/// Takes the result of the single balance read and closes the lookup.
pub fn balance_on_read(wallet: Wallet, read: Result<u64, String>) -> (r: Result<
    BalanceReport,
    ApiError,
>)
    ensures
        r is Ok <==> read is Ok,
        read is Err ==> r == Err::<BalanceReport, ApiError>(
            ApiError::Upstream(UpstreamStage::BalanceLookup, read->Err_0),
        ),
        read is Ok ==> {
            let rep = r->Ok_0;
            &&& rep.wallet_text@ == wallet.spec_text()
            &&& rep.lamports == read->Ok_0
        },
{
    match read {
        Ok(lamports) => {
            let wallet_text = wallet.text().clone();
            Ok(BalanceReport { wallet_text, lamports })
        },
        Err(cause) => Err(ApiError::Upstream(UpstreamStage::BalanceLookup, cause)),
    }
}

/// Assembles the health report: the status is always `"healthy"` and
/// the endpoint string is passed through unchanged.
pub fn health_report(rpc_url: String) -> (r: HealthReport)
    ensures
        r.status@ == "healthy"@,
        r.rpc_url == rpc_url,
{
    HealthReport { status: String::from_str("healthy"), rpc_url }
}

/// The endpoint used when none is configured.
pub fn default_rpc_url() -> (r: String)
    ensures
        r@ == "https://api.devnet.solana.com"@,
{
    String::from_str("https://api.devnet.solana.com")
}

/// Runs every decision of the airdrop flow against a fixed set of
/// adapter replies, in order: its contract shows that the four steps
/// compose to exactly `model::airdrop_verdict`, whatever the adapter
/// replied. The live shell drives the same steps one reply at a time.
pub fn airdrop_flow(
    wallet: String,
    sol: u64,
    initial: Result<u64, String>,
    submit: Result<String, String>,
    final_read: Result<u64, String>,
) -> (r: Result<AirdropReport, ApiError>)
    ensures
        r is Ok <==> crate::model::airdrop_verdict(wallet@, sol, initial, submit, final_read)
            is Ok,
        r is Err ==> r->Err_0 == crate::model::airdrop_verdict(
            wallet@,
            sol,
            initial,
            submit,
            final_read,
        )->Err_0,
        r is Ok ==> {
            let rep = r->Ok_0;
            &&& rep.wallet_text@ == wallet@
            &&& (rep.previous_lamports, rep.new_lamports) == crate::model::airdrop_verdict(
                wallet@,
                sol,
                initial,
                submit,
                final_read,
            )->Ok_0
        },
{
    let st = match airdrop_begin(wallet, sol) {
        Ok(st) => st,
        Err(e) => return Err(e),
    };
    let sub = match airdrop_on_initial_balance(st, initial) {
        Ok(sub) => sub,
        Err(e) => return Err(e),
    };
    let settle = match airdrop_on_submission(sub, submit) {
        Ok(settle) => settle,
        Err(e) => return Err(e),
    };
    airdrop_on_final_balance(settle, final_read)
}

/// Runs both decisions of the balance lookup against a fixed adapter
/// reply: its contract shows the two steps compose to exactly
/// `model::balance_verdict`.
pub fn balance_flow(wallet: String, read: Result<u64, String>) -> (r: Result<
    BalanceReport,
    ApiError,
>)
    ensures
        r is Ok <==> crate::model::balance_verdict(wallet@, read) is Ok,
        r is Err ==> r->Err_0 == crate::model::balance_verdict(wallet@, read)->Err_0,
        r is Ok ==> {
            let rep = r->Ok_0;
            &&& rep.wallet_text@ == wallet@
            &&& rep.lamports == crate::model::balance_verdict(wallet@, read)->Ok_0
        },
{
    let w = match balance_begin(wallet) {
        Ok(w) => w,
        Err(e) => return Err(e),
    };
    balance_on_read(w, read)
}

/// The explorer link reported for a submitted transaction.
pub open spec fn spec_explorer_url(sig: Seq<char>) -> Seq<char> {
    "https://explorer.solana.com/tx/"@ + sig + "?cluster=devnet"@
}

/// Builds the operator-facing explorer link for a transaction signature.
pub fn explorer_url(sig: &str) -> (r: String)
    ensures
        r@ == spec_explorer_url(sig@),
{
    let base = String::from_str("https://explorer.solana.com/tx/");
    let with_sig = base.concat(sig);
    with_sig.concat("?cluster=devnet")
}

} // verus!
