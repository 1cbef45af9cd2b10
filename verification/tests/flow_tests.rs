use faucet::addr::parse_checksummed;
use faucet::error::{FaucetError, Reply};
use faucet::flow::{start, Action, ChainEvent, Dispense, Params, StartOutcome};
use faucet::wei::Wei;

const GOOD: &str = "0x5aAeb6053F3E94C9b9A09f33669435E7Ef1BeAed";
const OPERATOR: &str = "0xfB6916095ca1df60bB79Ce92cE3Ea74c37c5d359";

fn params() -> Params {
    Params {
        tokens_per_request: Wei::from_u64(1000),
        gas_price_wei: 1_000_000_000,
        gas_limit: 21000,
    }
}

fn opened() -> (Dispense, Action) {
    let operator = parse_checksummed(OPERATOR).unwrap();
    match start(params(), operator, GOOD) {
        StartOutcome::Started(d, a) => (d, a),
        StartOutcome::Rejected(_) => panic!("valid address was rejected"),
    }
}

#[test]
fn invalid_address_rejected_without_chain_calls() {
    let operator = parse_checksummed(OPERATOR).unwrap();
    let r = start(params(), operator, "0x5aaeb6053f3e94c9b9a09f33669435e7ef1beaed");
    match r {
        StartOutcome::Rejected(reply) => {
            assert_eq!(reply.status(), 400);
            match reply {
                Reply::Failure(e) => {
                    assert!(matches!(e, FaucetError::InvalidAddress));
                    assert_eq!(e.message(), "Invalid address");
                },
                Reply::Success { .. } => panic!("rejection reported as success"),
            }
        },
        StartOutcome::Started(_, _) => panic!("malformed address accepted"),
    }
}

#[test]
fn full_success_run() {
    let (mut d, first) = opened();
    let operator = parse_checksummed(OPERATOR).unwrap();
    let recipient = parse_checksummed(GOOD).unwrap();
    assert!(matches!(first, Action::QueryOperatorBalance(a) if a == operator));

    let a = d.step(ChainEvent::OperatorBalance(Ok(Wei::from_u64(5000))));
    assert!(matches!(a, Action::QueryRecipientBalance(a) if a == recipient));

    let a = d.step(ChainEvent::RecipientBalance(Ok(Wei::zero())));
    assert!(matches!(a, Action::QueryNonce(a) if a == operator));

    let a = d.step(ChainEvent::NonceFetched(Ok(7)));
    assert!(matches!(a, Action::QueryChainId));

    let a = d.step(ChainEvent::ChainIdFetched(Ok(1234)));
    let plan = match a {
        Action::BuildAndSign(p) => p,
        _ => panic!("expected a signing action"),
    };
    assert_eq!(plan.to, recipient);
    assert_eq!(plan.value, Wei::from_u64(1000));
    assert_eq!(plan.gas_limit, 21000);
    assert_eq!(plan.max_fee_per_gas, 1_000_000_000);
    assert_eq!(plan.max_priority_fee_per_gas, 1_000_000_000);
    assert_eq!(plan.nonce, 7);
    assert_eq!(plan.chain_id, 1234);

    let a = d.step(ChainEvent::Built(Ok(())));
    assert!(matches!(a, Action::SubmitTx));

    let hash = "0x1f5e9a3bd2c44f0e8a7b6c5d4e3f2a1b0c9d8e7f6a5b4c3d2e1f0a9b8c7d6e5f";
    let a = d.step(ChainEvent::Submitted(Ok(hash.to_string())));
    match a {
        Action::Respond(reply) => {
            assert_eq!(reply.status(), 200);
            match reply {
                Reply::Success { transaction_hash } => {
                    assert_eq!(transaction_hash, hash);
                    // A 32-byte hash: 0x followed by 64 hexadecimal digits.
                    assert_eq!(transaction_hash.len(), 66);
                    assert!(transaction_hash.starts_with("0x"));
                    assert!(transaction_hash[2..].chars().all(|c| c.is_ascii_hexdigit()));
                },
                Reply::Failure(_) => panic!("success run ended in failure"),
            }
        },
        _ => panic!("expected a reply after submission"),
    }
}

#[test]
fn funded_recipient_refused() {
    let (mut d, _) = opened();
    let _ = d.step(ChainEvent::OperatorBalance(Ok(Wei::from_u64(5000))));
    let a = d.step(ChainEvent::RecipientBalance(Ok(Wei::from_u64(5))));
    match a {
        Action::Respond(reply) => {
            assert_eq!(reply.status(), 400);
            match reply {
                Reply::Failure(e) => {
                    assert!(matches!(e, FaucetError::AlreadyFunded));
                    assert_eq!(e.message(), "Receiver already has a balance greater than 0");
                },
                Reply::Success { .. } => panic!("refusal reported as success"),
            }
        },
        _ => panic!("expected a reply"),
    }
    // The workflow is over: nothing more is asked for.
    let a = d.step(ChainEvent::NonceFetched(Ok(1)));
    assert!(matches!(a, Action::Idle));
}

#[test]
fn insufficient_operator_balance_refused() {
    let (mut d, _) = opened();
    let a = d.step(ChainEvent::OperatorBalance(Ok(Wei::zero())));
    match a {
        Action::Respond(reply) => {
            assert_eq!(reply.status(), 400);
            match reply {
                Reply::Failure(e) => {
                    assert!(matches!(e, FaucetError::InsufficientBalance));
                    assert_eq!(e.message(), "Insufficient balance");
                },
                Reply::Success { .. } => panic!("refusal reported as success"),
            }
        },
        _ => panic!("expected a reply"),
    }
}

#[test]
fn operator_balance_exactly_sufficient_proceeds() {
    let (mut d, _) = opened();
    let a = d.step(ChainEvent::OperatorBalance(Ok(Wei::from_u64(1000))));
    assert!(matches!(a, Action::QueryRecipientBalance(_)));
}

#[test]
fn upstream_errors_reported_with_status_500() {
    let (mut d, _) = opened();
    let a = d.step(ChainEvent::OperatorBalance(Err("node down".to_string())));
    match a {
        Action::Respond(reply) => {
            assert_eq!(reply.status(), 500);
            match reply {
                Reply::Failure(e) => {
                    assert!(matches!(e, FaucetError::UpstreamError(_)));
                    assert_eq!(e.message(), "Failed to get balance: node down");
                },
                Reply::Success { .. } => panic!("error reported as success"),
            }
        },
        _ => panic!("expected a reply"),
    }
}

#[test]
fn nonce_and_chain_id_errors() {
    let (mut d, _) = opened();
    let _ = d.step(ChainEvent::OperatorBalance(Ok(Wei::from_u64(5000))));
    let _ = d.step(ChainEvent::RecipientBalance(Ok(Wei::zero())));
    let a = d.step(ChainEvent::NonceFetched(Err("timeout".to_string())));
    match a {
        Action::Respond(Reply::Failure(e)) => {
            assert_eq!(e.status(), 500);
            assert_eq!(e.message(), "Failed to get nonce: timeout");
        },
        _ => panic!("expected an upstream failure"),
    }

    let (mut d2, _) = opened();
    let _ = d2.step(ChainEvent::OperatorBalance(Ok(Wei::from_u64(5000))));
    let _ = d2.step(ChainEvent::RecipientBalance(Ok(Wei::zero())));
    let _ = d2.step(ChainEvent::NonceFetched(Ok(1)));
    let a = d2.step(ChainEvent::ChainIdFetched(Err("oops".to_string())));
    match a {
        Action::Respond(Reply::Failure(e)) => {
            assert_eq!(e.status(), 500);
            assert_eq!(e.message(), "Failed to get chain ID: oops");
        },
        _ => panic!("expected an upstream failure"),
    }
}

#[test]
fn build_and_send_errors() {
    let (mut d, _) = opened();
    let _ = d.step(ChainEvent::OperatorBalance(Ok(Wei::from_u64(5000))));
    let _ = d.step(ChainEvent::RecipientBalance(Ok(Wei::zero())));
    let _ = d.step(ChainEvent::NonceFetched(Ok(1)));
    let _ = d.step(ChainEvent::ChainIdFetched(Ok(1)));
    let a = d.step(ChainEvent::Built(Err("no signer".to_string())));
    match a {
        Action::Respond(Reply::Failure(e)) => {
            assert_eq!(e.status(), 500);
            assert!(matches!(e, FaucetError::BuildError(_)));
            assert_eq!(e.message(), "Failed to build transaction: no signer");
        },
        _ => panic!("expected a build failure"),
    }

    let (mut d2, _) = opened();
    let _ = d2.step(ChainEvent::OperatorBalance(Ok(Wei::from_u64(5000))));
    let _ = d2.step(ChainEvent::RecipientBalance(Ok(Wei::zero())));
    let _ = d2.step(ChainEvent::NonceFetched(Ok(1)));
    let _ = d2.step(ChainEvent::ChainIdFetched(Ok(1)));
    let _ = d2.step(ChainEvent::Built(Ok(())));
    let a = d2.step(ChainEvent::Submitted(Err("rejected".to_string())));
    match a {
        Action::Respond(Reply::Failure(e)) => {
            assert_eq!(e.status(), 500);
            assert!(matches!(e, FaucetError::SubmissionError(_)));
            assert_eq!(e.message(), "Failed to send transaction: rejected");
        },
        _ => panic!("expected a submission failure"),
    }
}

#[test]
fn out_of_turn_events_are_ignored() {
    let (mut d, _) = opened();
    let a = d.step(ChainEvent::RecipientBalance(Ok(Wei::zero())));
    assert!(matches!(a, Action::Idle));
    // The workflow still proceeds normally afterwards.
    let a = d.step(ChainEvent::OperatorBalance(Ok(Wei::from_u64(5000))));
    assert!(matches!(a, Action::QueryRecipientBalance(_)));
}

#[test]
fn two_dispenses_same_recipient_both_reach_submission() {
    // Nothing serializes concurrent requests: both workflows check the same
    // never-funded recipient, both see a zero balance, and both go on to
    // submit. The race is accepted, not prevented.
    let (mut d1, _) = opened();
    let (mut d2, _) = opened();
    for d in [&mut d1, &mut d2] {
        let _ = d.step(ChainEvent::OperatorBalance(Ok(Wei::from_u64(5000))));
        let _ = d.step(ChainEvent::RecipientBalance(Ok(Wei::zero())));
        let _ = d.step(ChainEvent::NonceFetched(Ok(3)));
        let _ = d.step(ChainEvent::ChainIdFetched(Ok(1)));
        let a = d.step(ChainEvent::Built(Ok(())));
        assert!(matches!(a, Action::SubmitTx));
    }
    // If the first dispense lands before the second one's balance check, the
    // second is refused instead.
    let (mut d3, _) = opened();
    let _ = d3.step(ChainEvent::OperatorBalance(Ok(Wei::from_u64(5000))));
    let a = d3.step(ChainEvent::RecipientBalance(Ok(Wei::from_u64(1000))));
    match a {
        Action::Respond(reply) => assert_eq!(reply.status(), 400),
        _ => panic!("expected a refusal"),
    }
}
