//! Parameter and return records of the init actor's `Exec` method.
//!
//! On the wire a record is the tuple of its fields in the order in which
//! they are declared here.

use cid::Cid;
use fvm_ipld_encoding::RawBytes;
use fvm_shared::address::Address;
use vstd::prelude::*;

verus! {

/// `cid::CidGeneric`, a content identifier carried through in records.
#[verifier::external_type_specification]
#[verifier::external_body]
pub struct ExCidGeneric<const S: usize>(cid::CidGeneric<S>);

/// `fvm_ipld_encoding::RawBytes`, encoded parameters carried through in
/// records.
#[verifier::external_type_specification]
#[verifier::external_body]
pub struct ExRawBytes(RawBytes);

/// `fvm_shared::address::Address`, carried through in records.
#[verifier::external_type_specification]
#[verifier::external_body]
pub struct ExAddress(Address);

/// Method number of `Exec`.
pub const EXEC_METHOD: u64 = 2;

/// Init actor Exec Params.
pub struct ExecParams {
    pub code_cid: Cid,
    pub constructor_params: RawBytes,
}

/// Init actor Exec Return value.
pub struct ExecReturn {
    /// ID based address for created actor.
    pub id_address: Address,
    /// Reorg safe address for actor.
    pub robust_address: Address,
}

} // verus!
