use eth_transfer::{
    start_transfer, step_transfer, Amount, ErrorKind, FlowAction, FlowEvent, FlowState, Receipt,
    TxHash,
};

/// A scripted stand-in for the RPC node: fixed balance, gas price and chain
/// id, a fixed hash for an accepted broadcast, an optional receipt, and a
/// count of how many broadcasts were requested.
struct MockRpc {
    balance: u128,
    gas_price: u128,
    chain_id: u64,
    hash: [u8; 32],
    receipt: Option<Receipt>,
    broadcasts: usize,
}

fn drive(start: (FlowState, FlowAction), rpc: &mut MockRpc) -> FlowState {
    let (mut state, mut action) = start;
    loop {
        let event = match action {
            FlowAction::FetchBalance => FlowEvent::BalanceFetched(Amount::from_wei(rpc.balance)),
            FlowAction::FetchGasPrice => {
                FlowEvent::GasPriceFetched(Amount::from_wei(rpc.gas_price))
            }
            FlowAction::FetchChainId => FlowEvent::ChainIdFetched(rpc.chain_id),
            FlowAction::SignAndBroadcast(_tx) => {
                rpc.broadcasts += 1;
                FlowEvent::BroadcastAccepted(TxHash { bytes: rpc.hash })
            }
            FlowAction::PollReceipt(_h) => match rpc.receipt {
                Some(r) => FlowEvent::ReceiptFound(r),
                None => FlowEvent::ReceiptMissing,
            },
            FlowAction::Finish => return state,
        };
        let next = step_transfer(state, event);
        state = next.0;
        action = next.1;
    }
}

const RECIPIENT: &str = "0x741CD80d41eDE318feD4010E296704a061f4115a";

fn entry_with_value(value_wei: u128, gas_limit: u64) -> (FlowState, FlowAction) {
    let recipient = eth_transfer::Address::parse(RECIPIENT).unwrap();
    (
        FlowState::AwaitingBalance {
            recipient,
            value: Amount::from_wei(value_wei),
            gas_limit,
        },
        FlowAction::FetchBalance,
    )
}

#[test]
fn insufficient_funds_stops_before_broadcast() {
    // balance 10, gas price 1, gas limit 300000, transfer 5:
    // required 300005 > 10, so the flow must fail with the exact
    // accounting and never reach the mock's broadcast.
    let mut rpc = MockRpc {
        balance: 10,
        gas_price: 1,
        chain_id: 421614,
        hash: [1; 32],
        receipt: None,
        broadcasts: 0,
    };
    let end = drive(entry_with_value(5, 300000), &mut rpc);
    assert_eq!(rpc.broadcasts, 0);
    match end {
        FlowState::Failed {
            error: ErrorKind::InsufficientFunds(d),
        } => {
            assert_eq!(d.balance.wei, 10);
            assert_eq!(d.amount.wei, 5);
            assert_eq!(d.fee.wei, 300000);
            assert!(!d.required_carry);
            assert_eq!(d.required_low, 300005);
            assert!(!d.shortfall_carry);
            assert_eq!(d.shortfall_low, 299995);
        }
        _ => panic!("expected an insufficient-funds failure"),
    }
}

#[test]
fn sufficient_funds_reaches_confirmation() {
    // balance 1_000_000, gas price 1, gas limit 21000, transfer 100:
    // required 21100 <= 1_000_000, the broadcast is accepted and a
    // success receipt observed, so the flow ends confirmed with it.
    let receipt = Receipt {
        block_number: 77,
        gas_used: 21000,
        status: true,
    };
    let mut rpc = MockRpc {
        balance: 1_000_000,
        gas_price: 1,
        chain_id: 421614,
        hash: [2; 32],
        receipt: Some(receipt),
        broadcasts: 0,
    };
    let end = drive(entry_with_value(100, 21000), &mut rpc);
    assert_eq!(rpc.broadcasts, 1);
    match end {
        FlowState::Confirmed {
            tx_hash,
            receipt: got,
        } => {
            assert_eq!(tx_hash.bytes, [2; 32]);
            assert_eq!(got, receipt);
        }
        _ => panic!("expected a confirmed transfer"),
    }
}

#[test]
fn missing_receipt_ends_unconfirmed_not_failed() {
    // The broadcast succeeds but the receipt lookup finds nothing: the
    // flow must end unconfirmed, surfacing the hash, not failed.
    let mut rpc = MockRpc {
        balance: 1_000_000,
        gas_price: 1,
        chain_id: 421614,
        hash: [3; 32],
        receipt: None,
        broadcasts: 0,
    };
    let end = drive(entry_with_value(100, 21000), &mut rpc);
    assert_eq!(rpc.broadcasts, 1);
    match end {
        FlowState::Unconfirmed { tx_hash } => assert_eq!(tx_hash.bytes, [3; 32]),
        _ => panic!("expected an unconfirmed transfer"),
    }
}

#[test]
fn full_flow_from_strings_confirms() {
    let receipt = Receipt {
        block_number: 9,
        gas_used: 21000,
        status: true,
    };
    let mut rpc = MockRpc {
        balance: 2_000_000_000_000_000_000,
        gas_price: 7,
        chain_id: 421614,
        hash: [4; 32],
        receipt: Some(receipt),
        broadcasts: 0,
    };
    let end = drive(start_transfer(RECIPIENT, "0.001", 21000), &mut rpc);
    assert_eq!(rpc.broadcasts, 1);
    assert!(matches!(end, FlowState::Confirmed { .. }));
}

#[test]
fn bad_recipient_fails_without_any_network_call() {
    let (state, action) = start_transfer("0x1234", "0.001", 21000);
    assert!(matches!(action, FlowAction::Finish));
    match state {
        FlowState::Failed {
            error: ErrorKind::InvalidAddress(s),
        } => assert_eq!(s, "0x1234"),
        _ => panic!("expected an invalid-address failure"),
    }
}

#[test]
fn bad_amount_fails_with_configuration_error() {
    let (state, action) = start_transfer(RECIPIENT, "0.001.2", 21000);
    assert!(matches!(action, FlowAction::Finish));
    assert!(matches!(
        state,
        FlowState::Failed {
            error: ErrorKind::Configuration
        }
    ));
}

#[test]
fn network_failure_before_broadcast_fails_the_attempt() {
    let (state, _action) = entry_with_value(100, 21000);
    let (state, action) = step_transfer(state, FlowEvent::NetworkFailed);
    assert!(matches!(action, FlowAction::Finish));
    assert!(matches!(
        state,
        FlowState::Failed {
            error: ErrorKind::Network
        }
    ));
}

#[test]
fn timeout_before_broadcast_fails_the_attempt() {
    let (state, _action) = entry_with_value(100, 21000);
    let (state, action) = step_transfer(state, FlowEvent::TimedOut);
    assert!(matches!(action, FlowAction::Finish));
    assert!(matches!(
        state,
        FlowState::Failed {
            error: ErrorKind::Timeout
        }
    ));
}

#[test]
fn timeout_while_polling_ends_unconfirmed() {
    let state = FlowState::AwaitingReceipt {
        tx_hash: TxHash { bytes: [5; 32] },
    };
    let (state, action) = step_transfer(state, FlowEvent::TimedOut);
    assert!(matches!(action, FlowAction::Finish));
    match state {
        FlowState::Unconfirmed { tx_hash } => assert_eq!(tx_hash.bytes, [5; 32]),
        _ => panic!("expected an unconfirmed transfer"),
    }
}

#[test]
fn rejected_broadcast_fails_the_attempt() {
    let state = FlowState::AwaitingBroadcast {
        value: Amount::from_wei(100),
        gas_limit: 21000,
        gas_price: Amount::from_wei(1),
        fee: Amount::from_wei(21000),
        balance: Amount::from_wei(1_000_000),
    };
    let (state, action) = step_transfer(state, FlowEvent::BroadcastRejected);
    assert!(matches!(action, FlowAction::Finish));
    assert!(matches!(
        state,
        FlowState::Failed {
            error: ErrorKind::Network
        }
    ));
}
