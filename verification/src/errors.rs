//! The gateway's error taxonomy: malformed input and the policy
//! rejection map to status 400; any upstream RPC failure maps to 500,
//! tagged with the stage at which it happened and carrying the
//! adapter's own cause text.

use vstd::prelude::*;

verus! {

/// The adapter call at which an upstream failure happened.
#[derive(Debug)]
pub enum UpstreamStage {
    /// The single read of the balance-lookup flow.
    BalanceLookup,
    /// The baseline read at the start of the airdrop flow.
    InitialBalance,
    /// The airdrop submission itself.
    Submission,
    /// The re-read after the settlement wait.
    FinalBalance,
}

/// Every way a request can fail. Each error is terminal for its
/// request: nothing is retried and nothing else is attempted.
#[derive(Debug)]
pub enum ApiError {
    /// The wallet string is not a well-formed on-chain address.
    InvalidAddress,
    /// The requested amount is over the fixed airdrop ceiling.
    AmountTooLarge,
    /// An RPC adapter call failed; carries the stage and the cause text.
    Upstream(UpstreamStage, String),
}

/// The message prefix reported for a failure at each stage.
pub open spec fn stage_prefix(stage: UpstreamStage) -> Seq<char> {
    match stage {
        UpstreamStage::BalanceLookup => "Failed to get balance: "@,
        UpstreamStage::InitialBalance => "Failed to get initial balance: "@,
        UpstreamStage::Submission => "Airdrop failed: "@,
        UpstreamStage::FinalBalance => "Failed to get new balance: "@,
    }
}

impl ApiError {
    /// The HTTP status this error maps to: 400 for rejected input,
    /// 500 for upstream failures.
    pub open spec fn spec_status(self) -> u16 {
        match self {
            ApiError::InvalidAddress => 400,
            ApiError::AmountTooLarge => 400,
            ApiError::Upstream(_, _) => 500,
        }
    }

    /// The message text reported to the client for this error.
    pub open spec fn spec_message(self) -> Seq<char> {
        match self {
            ApiError::InvalidAddress => "Invalid wallet address"@,
            ApiError::AmountTooLarge => "Airdrop amount too large (max 2 SOL)"@,
            ApiError::Upstream(stage, cause) => stage_prefix(stage) + cause@,
        }
    }

    /// The HTTP status code for this error.
    pub fn status(&self) -> (c: u16)
        ensures
            c == self.spec_status(),
    {
        match self {
            ApiError::InvalidAddress => 400,
            ApiError::AmountTooLarge => 400,
            ApiError::Upstream(_, _) => 500,
        }
    }

    /// The client-facing message text for this error.
    pub fn message(&self) -> (m: String)
        ensures
            m@ == self.spec_message(),
    {
        match self {
            ApiError::InvalidAddress => String::from_str("Invalid wallet address"),
            ApiError::AmountTooLarge => String::from_str("Airdrop amount too large (max 2 SOL)"),
            ApiError::Upstream(stage, cause) => {
                let prefix = match stage {
                    UpstreamStage::BalanceLookup => String::from_str("Failed to get balance: "),
                    UpstreamStage::InitialBalance => {
                        String::from_str("Failed to get initial balance: ")
                    },
                    UpstreamStage::Submission => String::from_str("Airdrop failed: "),
                    UpstreamStage::FinalBalance => String::from_str("Failed to get new balance: "),
                };
                prefix.concat(cause.as_str())
            },
        }
    }
}

} // verus!
