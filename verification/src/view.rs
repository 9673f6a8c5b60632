use vstd::prelude::*;
use vstd::string::StringSliceAdditionalSpecFns;
use crate::address::{address_bytes_of, is_canonical_address, Address};
use crate::error::ErrorKind;

verus! {

/// A validated read-only contract call: the contract to query and the name
/// of the method to invoke. Encoding the call and decoding its result are
/// delegated to the surrounding program; the library owns the validation.
pub struct ViewCall {
    pub contract: Address,
    pub method: String,
}

/// Validates the target of a read-only contract call. The contract address
/// must be canonical; any other string is rejected and reported back. The
/// method name is carried through unchanged.
pub fn build_view_call(contract_address: &str, method: &str) -> (r: Result<ViewCall, ErrorKind>)
    ensures
        r is Ok <==> is_canonical_address(contract_address.spec_bytes()),
        r is Ok ==> r->Ok_0.contract.wf() && r->Ok_0.contract.bytes@ =~= address_bytes_of(
            contract_address.spec_bytes(),
        ) && r->Ok_0.method@ == method@,
        r is Err ==> (r->Err_0 matches ErrorKind::InvalidAddress(s) && s@ == contract_address@),
{
    match Address::parse(contract_address) {
        Some(contract) => Ok(ViewCall { contract, method: method.to_owned() }),
        None => Err(ErrorKind::InvalidAddress(contract_address.to_owned())),
    }
}

} // verus!
