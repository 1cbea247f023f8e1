//! The scalar field whose elements the hash functions return.
use vstd::prelude::*;


verus! {

/// The scalar field element of BLS12-381, from `paired`. It is carried
/// through by value only: no logic here reads inside one.
#[verifier::external_type_specification]
#[verifier::external_body]
pub struct ExFr(paired::bls12_381::Fr);

} // verus!
