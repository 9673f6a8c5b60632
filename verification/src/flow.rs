use vstd::prelude::*;
use vstd::pervasive::unreached;
use vstd::string::StringSliceAdditionalSpecFns;
use crate::address::{address_bytes_of, is_canonical_address, Address};
use crate::amount::Amount;
use crate::error::ErrorKind;
use crate::fee::estimate_fee;
use crate::tx::{Receipt, TxHash, UnsignedTransaction};
use crate::units::{display_wei, is_display_amount, parse_display_amount};
use crate::validate::{validate_sufficient, wide_value};

verus! {

/// What the surrounding driver must do next. Every network operation and the
/// single use of the signing credential happen outside the library; the
/// driver performs the action and reports what it observed as a `FlowEvent`.
pub enum FlowAction {
    /// Fetch the sender's balance.
    FetchBalance,
    /// Fetch the current gas price.
    FetchGasPrice,
    /// Fetch the chain identifier.
    FetchChainId,
    /// Sign this transaction with the sender's credential and broadcast it.
    SignAndBroadcast(UnsignedTransaction),
    /// Poll once for the receipt of this transaction.
    PollReceipt(TxHash),
    /// The flow has reached a terminal state; nothing is left to do.
    Finish,
}

/// What the driver observed while performing the requested action.
pub enum FlowEvent {
    /// The sender's balance, in wei.
    BalanceFetched(Amount),
    /// The current gas price, in wei per gas unit.
    GasPriceFetched(Amount),
    /// The chain identifier.
    ChainIdFetched(u64),
    /// The node accepted the broadcast and returned the transaction hash.
    BroadcastAccepted(TxHash),
    /// The node rejected the broadcast.
    BroadcastRejected,
    /// The receipt of the transaction.
    ReceiptFound(Receipt),
    /// The receipt lookup returned nothing: not yet mined, or unknown.
    ReceiptMissing,
    /// The network operation failed.
    NetworkFailed,
    /// A caller-imposed time bound elapsed.
    TimedOut,
}

/// The orchestrator's state between two driver actions. The flow is strictly
/// sequential: each state waits for exactly one observation, and the three
/// terminal states are never left.
pub enum FlowState {
    /// The recipient is validated and the amount parsed; the sender's
    /// balance is being fetched.
    AwaitingBalance { recipient: Address, value: Amount, gas_limit: u64 },
    /// The balance is known; the gas price is being fetched.
    AwaitingGasPrice { recipient: Address, value: Amount, gas_limit: u64, balance: Amount },
    /// The fee is computed and the balance validated as sufficient; the
    /// chain identifier is being fetched.
    AwaitingChainId {
        recipient: Address,
        value: Amount,
        gas_limit: u64,
        balance: Amount,
        gas_price: Amount,
        fee: Amount,
    },
    /// The transaction is built and handed out for signing and broadcast.
    AwaitingBroadcast {
        value: Amount,
        gas_limit: u64,
        gas_price: Amount,
        fee: Amount,
        balance: Amount,
    },
    /// The broadcast was accepted; the receipt is being polled.
    AwaitingReceipt { tx_hash: TxHash },
    /// Terminal: a receipt was observed; carries it and the hash.
    Confirmed { tx_hash: TxHash, receipt: Receipt },
    /// Terminal: the broadcast succeeded but no receipt was observed. The
    /// transaction may still be mined later; the hash remains valid.
    Unconfirmed { tx_hash: TxHash },
    /// Terminal: a stage before or at broadcast failed; nothing was or will
    /// be broadcast unless the hash was already surfaced.
    Failed { error: ErrorKind },
}

/// Whether the flow is over.
pub open spec fn is_terminal(s: FlowState) -> bool {
    s is Confirmed || s is Unconfirmed || s is Failed
}

/// Data consistency carried from state to state: the fee always equals the
/// gas price times the gas limit, and from the moment the funds are
/// validated, the balance covers the transfer value plus the fee.
pub open spec fn flow_inv(s: FlowState) -> bool {
    match s {
        FlowState::AwaitingBalance { recipient, .. } => recipient.wf(),
        FlowState::AwaitingGasPrice { recipient, .. } => recipient.wf(),
        FlowState::AwaitingChainId { recipient, value, gas_limit, balance, gas_price, fee } => {
            recipient.wf() && fee.wei == gas_price.wei * gas_limit && value.wei + fee.wei
                <= balance.wei
        },
        FlowState::AwaitingBroadcast { value, gas_limit, gas_price, fee, balance } => {
            fee.wei == gas_price.wei * gas_limit && value.wei + fee.wei <= balance.wei
        },
        _ => true,
    }
}

/// The observation each state waits for. A terminal state waits for nothing.
pub open spec fn expects(s: FlowState, e: FlowEvent) -> bool {
    match s {
        FlowState::AwaitingBalance { .. } => e is BalanceFetched || e is NetworkFailed
            || e is TimedOut,
        FlowState::AwaitingGasPrice { .. } => e is GasPriceFetched || e is NetworkFailed
            || e is TimedOut,
        FlowState::AwaitingChainId { .. } => e is ChainIdFetched || e is NetworkFailed
            || e is TimedOut,
        FlowState::AwaitingBroadcast { .. } => e is BroadcastAccepted || e is BroadcastRejected
            || e is NetworkFailed || e is TimedOut,
        FlowState::AwaitingReceipt { .. } => e is ReceiptFound || e is ReceiptMissing
            || e is NetworkFailed || e is TimedOut,
        _ => false,
    }
}

/// The machine-width side condition on one step: the fee product must fit
/// the amount representation.
pub open spec fn fee_fits(s: FlowState, e: FlowEvent) -> bool {
    match (s, e) {
        (
            FlowState::AwaitingGasPrice { gas_limit, .. },
            FlowEvent::GasPriceFetched(p),
        ) => p.wei * gas_limit <= u128::MAX,
        _ => true,
    }
}

/// The exact transition relation of one step: for every state and every
/// observation it waits for, the next state and the next action.
pub open spec fn step_relation(s: FlowState, e: FlowEvent, r: (FlowState, FlowAction)) -> bool {
    match (s, e) {
        // Any network failure before broadcast fails the whole attempt.
        (FlowState::AwaitingBalance { .. }, FlowEvent::NetworkFailed) => (r.0 matches
            FlowState::Failed { error: ErrorKind::Network }) && r.1 is Finish,
        (FlowState::AwaitingGasPrice { .. }, FlowEvent::NetworkFailed) => (r.0 matches
            FlowState::Failed { error: ErrorKind::Network }) && r.1 is Finish,
        (FlowState::AwaitingChainId { .. }, FlowEvent::NetworkFailed) => (r.0 matches
            FlowState::Failed { error: ErrorKind::Network }) && r.1 is Finish,
        (FlowState::AwaitingBroadcast { .. }, FlowEvent::NetworkFailed) => (r.0 matches
            FlowState::Failed { error: ErrorKind::Network }) && r.1 is Finish,
        // A time bound elapsing before broadcast fails the whole attempt.
        (FlowState::AwaitingBalance { .. }, FlowEvent::TimedOut) => (r.0 matches
            FlowState::Failed { error: ErrorKind::Timeout }) && r.1 is Finish,
        (FlowState::AwaitingGasPrice { .. }, FlowEvent::TimedOut) => (r.0 matches
            FlowState::Failed { error: ErrorKind::Timeout }) && r.1 is Finish,
        (FlowState::AwaitingChainId { .. }, FlowEvent::TimedOut) => (r.0 matches
            FlowState::Failed { error: ErrorKind::Timeout }) && r.1 is Finish,
        (FlowState::AwaitingBroadcast { .. }, FlowEvent::TimedOut) => (r.0 matches
            FlowState::Failed { error: ErrorKind::Timeout }) && r.1 is Finish,
        // The observed balance is recorded and the gas price asked for.
        (
            FlowState::AwaitingBalance { recipient, value, gas_limit },
            FlowEvent::BalanceFetched(b),
        ) => (r.0 matches FlowState::AwaitingGasPrice {
            recipient: rc,
            value: v,
            gas_limit: g,
            balance: bl,
        } && rc.bytes@ == recipient.bytes@ && v == value && g == gas_limit && bl == b)
            && r.1 is FetchGasPrice,
        // The fee is computed from the fresh gas price and the balance
        // validated; an insufficient balance fails the attempt with the
        // exact accounting, before anything is signed or broadcast.
        (
            FlowState::AwaitingGasPrice { recipient, value, gas_limit, balance },
            FlowEvent::GasPriceFetched(p),
        ) => if value.wei + p.wei * gas_limit <= balance.wei {
            (r.0 matches FlowState::AwaitingChainId {
                recipient: rc,
                value: v,
                gas_limit: g,
                balance: bl,
                gas_price: gp,
                fee: f,
            } && rc.bytes@ == recipient.bytes@ && v == value && g == gas_limit && bl == balance
                && gp == p && f.wei == p.wei * gas_limit) && r.1 is FetchChainId
        } else {
            (r.0 matches FlowState::Failed { error: ErrorKind::InsufficientFunds(d) }
                && d.balance == balance && d.amount == value && d.fee.wei == p.wei * gas_limit
                && wide_value(d.required_carry, d.required_low) == value.wei + p.wei * gas_limit
                && wide_value(d.shortfall_carry, d.shortfall_low) == value.wei + p.wei * gas_limit
                - balance.wei) && r.1 is Finish
        },
        // The transaction is assembled exactly from the validated parts and
        // handed out for its single signing and broadcast.
        (
            FlowState::AwaitingChainId { recipient, value, gas_limit, balance, gas_price, fee },
            FlowEvent::ChainIdFetched(c),
        ) => (r.0 matches FlowState::AwaitingBroadcast {
            value: v,
            gas_limit: g,
            gas_price: gp,
            fee: f,
            balance: bl,
        } && v == value && g == gas_limit && gp == gas_price && f == fee && bl == balance) && (
        r.1 matches FlowAction::SignAndBroadcast(t) && t.wf() && t.recipient.bytes@
            == recipient.bytes@ && t.value == value && t.gas_limit == gas_limit && t.gas_price
            == gas_price && t.chain_id == c),
        // Once the node accepts the broadcast, the hash is the durable
        // identifier and is never dropped again.
        (FlowState::AwaitingBroadcast { .. }, FlowEvent::BroadcastAccepted(h)) => (r.0 matches
            FlowState::AwaitingReceipt { tx_hash } && tx_hash.bytes@ == h.bytes@) && (r.1 matches
            FlowAction::PollReceipt(h2) && h2.bytes@ == h.bytes@),
        // A broadcast the node rejected fails the attempt.
        (FlowState::AwaitingBroadcast { .. }, FlowEvent::BroadcastRejected) => (r.0 matches
            FlowState::Failed { error: ErrorKind::Network }) && r.1 is Finish,
        // A receipt confirms the transfer and is carried out whole.
        (FlowState::AwaitingReceipt { tx_hash }, FlowEvent::ReceiptFound(rc)) => (r.0 matches
            FlowState::Confirmed { tx_hash: h, receipt } && h.bytes@ == tx_hash.bytes@ && receipt
            == rc) && r.1 is Finish,
        // No receipt after a successful broadcast is not a failure: the
        // outcome stays ambiguous and the hash is surfaced.
        (FlowState::AwaitingReceipt { tx_hash }, FlowEvent::ReceiptMissing) => (r.0 matches
            FlowState::Unconfirmed { tx_hash: h } && h.bytes@ == tx_hash.bytes@) && r.1 is Finish,
        (FlowState::AwaitingReceipt { tx_hash }, FlowEvent::NetworkFailed) => (r.0 matches
            FlowState::Unconfirmed { tx_hash: h } && h.bytes@ == tx_hash.bytes@) && r.1 is Finish,
        (FlowState::AwaitingReceipt { tx_hash }, FlowEvent::TimedOut) => (r.0 matches
            FlowState::Unconfirmed { tx_hash: h } && h.bytes@ == tx_hash.bytes@) && r.1 is Finish,
        _ => true,
    }
}

/// A terminal state waits for no observation, so the flow can never leave
/// `Confirmed`, `Unconfirmed` or `Failed`: there is no branching back.
pub proof fn lemma_terminal_states_are_final(s: FlowState, e: FlowEvent)
    ensures
        is_terminal(s) ==> !expects(s, e),
{
}

/// Begins a transfer attempt: validates the recipient address and parses the
/// transfer amount, failing fast on either, and otherwise asks the driver
/// for the sender's balance. Nothing is signed or broadcast before every
/// check has passed.
pub fn start_transfer(recipient: &str, amount: &str, gas_limit: u64) -> (r: (
    FlowState,
    FlowAction,
))
    ensures
        flow_inv(r.0),
        is_terminal(r.0) <==> r.1 is Finish,
        !is_canonical_address(recipient.spec_bytes()) ==> (r.0 matches FlowState::Failed {
            error: ErrorKind::InvalidAddress(s),
        } && s@ == recipient@) && r.1 is Finish,
        is_canonical_address(recipient.spec_bytes()) && !(is_display_amount(amount.spec_bytes())
            && display_wei(amount.spec_bytes()) <= u128::MAX) ==> (r.0 matches FlowState::Failed {
            error: ErrorKind::Configuration,
        }) && r.1 is Finish,
        is_canonical_address(recipient.spec_bytes()) && is_display_amount(amount.spec_bytes())
            && display_wei(amount.spec_bytes()) <= u128::MAX ==> (r.0 matches
        FlowState::AwaitingBalance { recipient: rc, value, gas_limit: g } && rc.bytes@
            =~= address_bytes_of(recipient.spec_bytes()) && value.wei == display_wei(
            amount.spec_bytes(),
        ) && g == gas_limit) && r.1 is FetchBalance,
{
    let addr = match Address::parse(recipient) {
        Some(a) => a,
        None => {
            return (
                FlowState::Failed { error: ErrorKind::InvalidAddress(recipient.to_owned()) },
                FlowAction::Finish,
            );
        },
    };
    let value = match parse_display_amount(amount) {
        Some(v) => v,
        None => {
            return (FlowState::Failed { error: ErrorKind::Configuration }, FlowAction::Finish);
        },
    };
    (FlowState::AwaitingBalance { recipient: addr, value, gas_limit }, FlowAction::FetchBalance)
}

/// Advances the flow by one observed event. The step preserves the flow's
/// data consistency, stops exactly in the terminal states, follows the
/// transition relation exactly, and hands a transaction out for signing only
/// when the validated balance covers its value plus its fee.
pub fn step_transfer(state: FlowState, event: FlowEvent) -> (r: (FlowState, FlowAction))
    requires
        flow_inv(state),
        expects(state, event),
        fee_fits(state, event),
    ensures
        flow_inv(r.0),
        is_terminal(r.0) <==> r.1 is Finish,
        step_relation(state, event, r),
        r.1 matches FlowAction::SignAndBroadcast(t) ==> t.wf() && (state matches
            FlowState::AwaitingChainId { balance, .. } && t.value.wei + t.gas_price.wei
            * t.gas_limit <= balance.wei),
{
    match (state, event) {
        (FlowState::AwaitingBalance { recipient, value, gas_limit }, e) => match e {
            FlowEvent::BalanceFetched(b) => (
                FlowState::AwaitingGasPrice { recipient, value, gas_limit, balance: b },
                FlowAction::FetchGasPrice,
            ),
            FlowEvent::NetworkFailed => (
                FlowState::Failed { error: ErrorKind::Network },
                FlowAction::Finish,
            ),
            FlowEvent::TimedOut => (
                FlowState::Failed { error: ErrorKind::Timeout },
                FlowAction::Finish,
            ),
            _ => unreached(),
        },
        (FlowState::AwaitingGasPrice { recipient, value, gas_limit, balance }, e) => match e {
            FlowEvent::GasPriceFetched(p) => {
                let fee = match estimate_fee(p, gas_limit) {
                    Some(f) => f,
                    None => unreached(),
                };
                match validate_sufficient(balance, value, fee) {
                    Ok(()) => (
                        FlowState::AwaitingChainId {
                            recipient,
                            value,
                            gas_limit,
                            balance,
                            gas_price: p,
                            fee,
                        },
                        FlowAction::FetchChainId,
                    ),
                    Err(d) => (
                        FlowState::Failed { error: ErrorKind::InsufficientFunds(d) },
                        FlowAction::Finish,
                    ),
                }
            },
            FlowEvent::NetworkFailed => (
                FlowState::Failed { error: ErrorKind::Network },
                FlowAction::Finish,
            ),
            FlowEvent::TimedOut => (
                FlowState::Failed { error: ErrorKind::Timeout },
                FlowAction::Finish,
            ),
            _ => unreached(),
        },
        (
            FlowState::AwaitingChainId { recipient, value, gas_limit, balance, gas_price, fee },
            e,
        ) => match e {
            FlowEvent::ChainIdFetched(c) => {
                let t = UnsignedTransaction::from_parts(recipient, value, gas_limit, gas_price, c);
                (
                    FlowState::AwaitingBroadcast { value, gas_limit, gas_price, fee, balance },
                    FlowAction::SignAndBroadcast(t),
                )
            },
            FlowEvent::NetworkFailed => (
                FlowState::Failed { error: ErrorKind::Network },
                FlowAction::Finish,
            ),
            FlowEvent::TimedOut => (
                FlowState::Failed { error: ErrorKind::Timeout },
                FlowAction::Finish,
            ),
            _ => unreached(),
        },
        (FlowState::AwaitingBroadcast { .. }, e) => match e {
            FlowEvent::BroadcastAccepted(h) => (
                FlowState::AwaitingReceipt { tx_hash: h },
                FlowAction::PollReceipt(h),
            ),
            FlowEvent::BroadcastRejected => (
                FlowState::Failed { error: ErrorKind::Network },
                FlowAction::Finish,
            ),
            FlowEvent::NetworkFailed => (
                FlowState::Failed { error: ErrorKind::Network },
                FlowAction::Finish,
            ),
            FlowEvent::TimedOut => (
                FlowState::Failed { error: ErrorKind::Timeout },
                FlowAction::Finish,
            ),
            _ => unreached(),
        },
        (FlowState::AwaitingReceipt { tx_hash }, e) => match e {
            FlowEvent::ReceiptFound(receipt) => (
                FlowState::Confirmed { tx_hash, receipt },
                FlowAction::Finish,
            ),
            FlowEvent::ReceiptMissing => (
                FlowState::Unconfirmed { tx_hash },
                FlowAction::Finish,
            ),
            FlowEvent::NetworkFailed => (
                FlowState::Unconfirmed { tx_hash },
                FlowAction::Finish,
            ),
            FlowEvent::TimedOut => (
                FlowState::Unconfirmed { tx_hash },
                FlowAction::Finish,
            ),
            _ => unreached(),
        },
        _ => unreached(),
    }
}

} // verus!
