use airdrop_gateway::errors::ApiError;
use airdrop_gateway::flow::{
    airdrop_begin, airdrop_on_final_balance, airdrop_on_initial_balance, airdrop_on_submission,
    airdrop_flow, balance_begin, balance_flow, balance_on_read, default_rpc_url, explorer_url,
    health_report,
};
use airdrop_gateway::units::{
    lamports_to_sol_parts, LAMPORTS_PER_SOL, MAX_AIRDROP_SOL, SETTLEMENT_DELAY_SECS,
};
use airdrop_gateway::address::Wallet;
use std::str::FromStr;

const VALID_WALLET: &str = "11111111111111111111111111111111";

#[test]
fn invalid_address_balance_rejected() {
    let r = balance_begin("not-a-valid-address".to_string());
    match r {
        Ok(_) => panic!("invalid address must be rejected"),
        Err(e) => {
            assert_eq!(e.status(), 400);
            assert_eq!(e.message(), "Invalid wallet address");
        }
    }
}

#[test]
fn invalid_address_airdrop_rejected() {
    let r = airdrop_begin("not-a-valid-address".to_string(), 1);
    match r {
        Ok(_) => panic!("invalid address must be rejected"),
        Err(e) => {
            assert_eq!(e.status(), 400);
            assert_eq!(e.message(), "Invalid wallet address");
        }
    }
}

#[test]
fn wallet_parse_returns_decoded_key_bytes() {
    let w = Wallet::parse(VALID_WALLET.to_string()).expect("system address parses");
    assert_eq!(w.key_bytes(), [0u8; 32]);
    assert_eq!(w.text().as_str(), VALID_WALLET);
}

#[test]
fn wallet_parse_matches_chain_decoder() {
    let s = "So11111111111111111111111111111111111111112";
    let expected = solana_pubkey::Pubkey::from_str(s).unwrap().to_bytes();
    let w = Wallet::parse(s.to_string()).expect("known mint address parses");
    assert_eq!(w.key_bytes(), expected);
}

#[test]
fn wallet_parse_rejects_what_chain_decoder_rejects() {
    let bad = "IIIIIIIIIIIIIIIIIIIIIIIIIIIIIIII";
    assert!(solana_pubkey::Pubkey::from_str(bad).is_err());
    assert!(Wallet::parse(bad.to_string()).is_err());
    assert!(Wallet::parse(String::new()).is_err());
}

#[test]
fn airdrop_happy_path_confirm_and_compare() {
    let mut reads: u32 = 0;
    let mut submissions: u32 = 0;

    let st = airdrop_begin(VALID_WALLET.to_string(), 1).expect("accepted");

    reads += 1; // adapter: baseline read
    let sub = airdrop_on_initial_balance(st, Ok(500_000_000)).expect("baseline recorded");
    assert_eq!(sub.lamports(), 1_000_000_000);

    submissions += 1; // adapter: airdrop submission
    let settle = airdrop_on_submission(sub, Ok("sig".to_string())).expect("submitted");
    assert_eq!(settle.signature().as_str(), "sig");
    assert_eq!(SETTLEMENT_DELAY_SECS, 10); // the shell now waits this long

    reads += 1; // adapter: post-wait read
    let report = airdrop_on_final_balance(settle, Ok(1_500_000_000)).expect("report");
    assert_eq!(report.wallet_text, VALID_WALLET);
    assert_eq!(report.previous_lamports, 500_000_000);
    assert_eq!(report.new_lamports, 1_500_000_000);

    let new_balance_sol = report.new_lamports as f64 / LAMPORTS_PER_SOL as f64;
    assert_eq!(new_balance_sol, 1.5);

    assert_eq!(submissions, 1);
    assert_eq!(reads, 2);
}

#[test]
fn airdrop_over_limit_rejected_before_any_call() {
    // Rejection happens in `airdrop_begin`, before the flow reaches any
    // state from which the shell would read a balance, wait, or submit.
    for _ in 0..2 {
        let r = airdrop_begin(VALID_WALLET.to_string(), 3);
        match r {
            Ok(_) => panic!("over-limit amount must be rejected"),
            Err(e) => {
                assert!(matches!(e, ApiError::AmountTooLarge));
                assert_eq!(e.status(), 400);
                assert_eq!(e.message(), "Airdrop amount too large (max 2 SOL)");
            }
        }
    }
}

#[test]
fn airdrop_at_limit_accepted() {
    let st = airdrop_begin(VALID_WALLET.to_string(), MAX_AIRDROP_SOL).expect("2 SOL is allowed");
    let sub = airdrop_on_initial_balance(st, Ok(0)).expect("baseline recorded");
    assert_eq!(sub.lamports(), 2_000_000_000);
}

#[test]
fn airdrop_initial_read_failure_is_500() {
    let st = airdrop_begin(VALID_WALLET.to_string(), 1).expect("accepted");
    let r = airdrop_on_initial_balance(st, Err("node down".to_string()));
    match r {
        Ok(_) => panic!("failed read must abort the flow"),
        Err(e) => {
            assert_eq!(e.status(), 500);
            assert_eq!(e.message(), "Failed to get initial balance: node down");
        }
    }
}

#[test]
fn airdrop_submission_failure_stops_flow() {
    let st = airdrop_begin(VALID_WALLET.to_string(), 1).expect("accepted");
    let sub = airdrop_on_initial_balance(st, Ok(7)).expect("baseline recorded");
    let r = airdrop_on_submission(sub, Err("rate limited".to_string()));
    match r {
        Ok(_) => panic!("failed submission must abort the flow"),
        Err(e) => {
            assert_eq!(e.status(), 500);
            assert_eq!(e.message(), "Airdrop failed: rate limited");
        }
    }
}

#[test]
fn airdrop_final_read_failure_is_500() {
    let st = airdrop_begin(VALID_WALLET.to_string(), 1).expect("accepted");
    let sub = airdrop_on_initial_balance(st, Ok(7)).expect("baseline recorded");
    let settle = airdrop_on_submission(sub, Ok("sig".to_string())).expect("submitted");
    let r = airdrop_on_final_balance(settle, Err("timeout".to_string()));
    match r {
        Ok(_) => panic!("failed re-read must abort the flow"),
        Err(e) => {
            assert_eq!(e.status(), 500);
            assert_eq!(e.message(), "Failed to get new balance: timeout");
        }
    }
}

#[test]
fn balance_lookup_reports_reading() {
    let w = balance_begin(VALID_WALLET.to_string()).expect("accepted");
    let report = balance_on_read(w, Ok(42)).expect("report");
    assert_eq!(report.wallet_text, VALID_WALLET);
    assert_eq!(report.lamports, 42);
}

#[test]
fn balance_lookup_failure_is_500() {
    let w = balance_begin(VALID_WALLET.to_string()).expect("accepted");
    let r = balance_on_read(w, Err("no route".to_string()));
    match r {
        Ok(_) => panic!("failed read must be reported"),
        Err(e) => {
            assert_eq!(e.status(), 500);
            assert_eq!(e.message(), "Failed to get balance: no route");
        }
    }
}

#[test]
fn conversion_exact_at_boundaries() {
    assert_eq!(lamports_to_sol_parts(0), (0, 0));
    assert_eq!(lamports_to_sol_parts(1), (0, 1));
    assert_eq!(lamports_to_sol_parts(LAMPORTS_PER_SOL), (1, 0));
    assert_eq!(lamports_to_sol_parts(1_500_000_000), (1, 500_000_000));

    assert_eq!(0u64 as f64 / LAMPORTS_PER_SOL as f64, 0.0);
    assert_eq!(LAMPORTS_PER_SOL as f64 / LAMPORTS_PER_SOL as f64, 1.0);
}

#[test]
fn health_reports_configured_endpoint_exactly() {
    let r = health_report("https://api.devnet.solana.com".to_string());
    assert_eq!(r.status, "healthy");
    assert_eq!(r.rpc_url, "https://api.devnet.solana.com");

    let custom = health_report("http://localhost:8899".to_string());
    assert_eq!(custom.rpc_url, "http://localhost:8899");

    assert_eq!(default_rpc_url(), "https://api.devnet.solana.com");
}

#[test]
fn explorer_link_wraps_signature() {
    assert_eq!(
        explorer_url("abc"),
        "https://explorer.solana.com/tx/abc?cluster=devnet"
    );
}

#[test]
fn composed_airdrop_flow_reaches_same_verdicts() {
    let r = airdrop_flow(
        VALID_WALLET.to_string(),
        1,
        Ok(500_000_000),
        Ok("sig".to_string()),
        Ok(1_500_000_000),
    )
    .expect("all replies succeed");
    assert_eq!(r.wallet_text, VALID_WALLET);
    assert_eq!(r.previous_lamports, 500_000_000);
    assert_eq!(r.new_lamports, 1_500_000_000);

    let e = airdrop_flow(
        VALID_WALLET.to_string(),
        3,
        Ok(0),
        Ok("sig".to_string()),
        Ok(0),
    )
    .unwrap_err();
    assert!(matches!(e, ApiError::AmountTooLarge));

    let e = airdrop_flow(
        VALID_WALLET.to_string(),
        1,
        Ok(0),
        Err("boom".to_string()),
        Ok(0),
    )
    .unwrap_err();
    assert_eq!(e.message(), "Airdrop failed: boom");
}

#[test]
fn composed_balance_flow_reaches_same_verdicts() {
    let r = balance_flow(VALID_WALLET.to_string(), Ok(9)).expect("reply succeeds");
    assert_eq!(r.lamports, 9);
    assert_eq!(r.wallet_text, VALID_WALLET);

    let e = balance_flow("x".to_string(), Ok(9)).unwrap_err();
    assert!(matches!(e, ApiError::InvalidAddress));
}
