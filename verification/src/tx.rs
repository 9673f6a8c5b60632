use vstd::prelude::*;
use vstd::string::StringSliceAdditionalSpecFns;
use crate::address::{address_bytes_of, is_canonical_address, Address};
use crate::amount::Amount;
use crate::error::ErrorKind;

verus! {

/// An unsigned native-asset transfer, assembled only after every prerequisite
/// check has passed and immutable thereafter: reading a field back always
/// yields exactly what was put in.
#[derive(Debug)]
pub struct UnsignedTransaction {
    pub recipient: Address,
    pub value: Amount,
    pub gas_limit: u64,
    pub gas_price: Amount,
    pub chain_id: u64,
}

impl UnsignedTransaction {
    /// A well-formed transaction carries a well-formed recipient.
    pub open spec fn wf(self) -> bool {
        self.recipient.wf()
    }

    /// Assembles a transaction from an already validated recipient; every
    /// field of the result is exactly the argument it came from.
    pub fn from_parts(
        recipient: Address,
        value: Amount,
        gas_limit: u64,
        gas_price: Amount,
        chain_id: u64,
    ) -> (t: UnsignedTransaction)
        requires
            recipient.wf(),
        ensures
            t.wf(),
            t.recipient == recipient,
            t.value == value,
            t.gas_limit == gas_limit,
            t.gas_price == gas_price,
            t.chain_id == chain_id,
    {
        UnsignedTransaction { recipient, value, gas_limit, gas_price, chain_id }
    }

    /// Assembles a transaction after validating the recipient string, which
    /// must be a canonical address; any other string is rejected and reported
    /// back. Every field of the result is exactly the argument it came from.
    pub fn build(
        recipient: &str,
        value: Amount,
        gas_limit: u64,
        gas_price: Amount,
        chain_id: u64,
    ) -> (r: Result<UnsignedTransaction, ErrorKind>)
        ensures
            r is Ok <==> is_canonical_address(recipient.spec_bytes()),
            r is Ok ==> ({
                let t = r->Ok_0;
                t.wf() && t.recipient.bytes@ =~= address_bytes_of(recipient.spec_bytes())
                    && t.value == value && t.gas_limit == gas_limit && t.gas_price == gas_price
                    && t.chain_id == chain_id
            }),
            r is Err ==> (r->Err_0 matches ErrorKind::InvalidAddress(s) && s@ == recipient@),
    {
        match Address::parse(recipient) {
            Some(addr) => Ok(
                UnsignedTransaction { recipient: addr, value, gas_limit, gas_price, chain_id },
            ),
            None => Err(ErrorKind::InvalidAddress(recipient.to_owned())),
        }
    }

    /// The validated recipient.
    pub fn recipient(&self) -> (r: &Address)
        ensures
            r == self.recipient,
    {
        &self.recipient
    }

    /// The transfer value in wei.
    pub fn value(&self) -> (r: Amount)
        ensures
            r == self.value,
    {
        self.value
    }

    /// The gas limit of the operation class.
    pub fn gas_limit(&self) -> (r: u64)
        ensures
            r == self.gas_limit,
    {
        self.gas_limit
    }

    /// The gas price the fee was estimated at.
    pub fn gas_price(&self) -> (r: Amount)
        ensures
            r == self.gas_price,
    {
        self.gas_price
    }

    /// The chain the transaction is bound to.
    pub fn chain_id(&self) -> (r: u64)
        ensures
            r == self.chain_id,
    {
        self.chain_id
    }
}

/// The durable identifier of a broadcast transaction, used to poll for its
/// confirmation.
#[derive(Clone, Copy, Debug)]
pub struct TxHash {
    pub bytes: [u8; 32],
}

/// A node's confirmation record for a mined transaction.
#[derive(Clone, Copy, PartialEq, Eq, Structural, Debug)]
pub struct Receipt {
    pub block_number: u64,
    pub gas_used: u64,
    pub status: bool,
}

} // verus!
