//! A minimal, verified client workflow for submitting native-asset transfers
//! on an Ethereum-compatible network: fee estimation, balance-sufficiency
//! validation, address and unit parsing, transaction construction, and a pure
//! state machine that sequences a transfer from recipient validation to
//! confirmation. Network transport, signing and presentation live outside the
//! library and drive the state machine through plain values.

pub mod address;
pub mod amount;
pub mod error;
pub mod fee;
pub mod flow;
pub mod tx;
pub mod units;
pub mod validate;
pub mod view;

pub use address::Address;
pub use amount::Amount;
pub use error::ErrorKind;
pub use tx::{Receipt, TxHash, UnsignedTransaction};
pub use flow::{start_transfer, step_transfer, FlowAction, FlowEvent, FlowState};
pub use fee::{estimate_fee, CONTRACT_GAS_LIMIT, TRANSFER_GAS_LIMIT};
pub use units::{format_wei, parse_display_amount};
pub use validate::{validate_sufficient, InsufficientFunds};
pub use view::{build_view_call, ViewCall};
