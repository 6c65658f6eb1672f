//! Declarations of the outside types that requests and records carry
//! opaquely: the node's address, transaction-id and name-commitment types.
//! The library stores and hands these through; it never looks inside one.

use vstd::prelude::*;

verus! {

/// vrsc's `Address`: a parsed transparent, shielded or identity address.
#[verifier::external_type_specification]
#[verifier::external_body]
pub struct ExAddress(vrsc::Address);

/// The node's reply to `registernamecommitment`: the commitment transaction
/// id and the name reservation, passed back whole into `registeridentity`.
#[verifier::external_type_specification]
#[verifier::external_body]
pub struct ExNameCommitment(vrsc_rpc::json::identity::NameCommitment);

/// A transaction id.
#[verifier::external_type_specification]
#[verifier::external_body]
pub struct ExTxid(vrsc_rpc::bitcoin::Txid);

/// Relies on vrsc's derived `Clone` for `Address`: a member-wise copy of plain
/// data, so the clone equals the original.
pub assume_specification[ <vrsc::Address as Clone>::clone ](a: &vrsc::Address) -> (r: vrsc::Address)
    ensures
        r == *a,
;

} // verus!
