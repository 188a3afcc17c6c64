//! Abstract hash and PRF collaborators. The garbler consumes both through
//! these contracts only; the concrete algorithms live outside this crate and
//! are supplied by its users.

use vstd::prelude::*;

use crate::bit::Bits;

verus! {

/// Failure of an underlying hash computation.
#[derive(Debug)]
pub enum HashFnError {
    InnerHashFnError(String),
}

impl HashFnError {
    /// The message carried by the failure.
    pub fn message(&self) -> (r: &String)
        ensures
            r@ == self.spec_message(),
    {
        match self {
            HashFnError::InnerHashFnError(s) => s,
        }
    }

    /// The message carried by the failure.
    pub closed spec fn spec_message(&self) -> Seq<char> {
        match self {
            HashFnError::InnerHashFnError(s) => s@,
        }
    }
}

/// Failure of an underlying PRF key derivation or evaluation.
#[derive(Debug)]
pub enum PRFError {
    InnerPRFError(String),
}

impl PRFError {
    /// The message carried by the failure.
    pub fn message(&self) -> (r: &String)
        ensures
            r@ == self.spec_message(),
    {
        match self {
            PRFError::InnerPRFError(s) => s,
        }
    }

    /// The message carried by the failure.
    pub closed spec fn spec_message(&self) -> Seq<char> {
        match self {
            PRFError::InnerPRFError(s) => s@,
        }
    }
}

/// A one-way hash function of fixed output width.
///
/// `hash` is the output an implementation computes and `hash_ok` tells on
/// which inputs it succeeds: both are functions of the input bits alone, so
/// a hash is deterministic by contract. That the function is correlation
/// robust and one way is a security property assumed of the implementation;
/// nothing here states or enforces it.
pub trait HashFn<B: Bits>: Sized {
    /// Whether the hash succeeds on this input.
    spec fn hash_ok(&self, input: Seq<bool>) -> bool;

    /// The hash output on this input.
    spec fn hash(&self, input: Seq<bool>) -> Seq<bool>;

    /// The fixed output width.
    spec fn out_size(&self) -> nat;

    /// Every output has the fixed width.
    proof fn lemma_hash_len(&self, input: Seq<bool>)
        ensures
            self.hash(input).len() == self.out_size(),
    ;

    /// Compute the hash of the input, or report the failure.
    fn compute(&self, input: &B) -> (r: Result<B, HashFnError>)
        ensures
            r is Ok <==> self.hash_ok(input.bits()),
            r matches Ok(out) ==> out.bits() == self.hash(input.bits()),
    ;
}

/// A keyed pseudorandom function of fixed output width.
///
/// The key is fixed for a whole garbling session and lives inside the
/// implementation, supplied when the implementation is built; no operation
/// re-keys it. `prf` is the output an implementation computes and `prf_ok`
/// tells on which seeds it succeeds: both are functions of the seed bits
/// alone, so an evaluation is deterministic by contract. Pseudorandomness is
/// a security property assumed of the implementation.
pub trait PRF<B: Bits>: Sized {
    /// Whether evaluation succeeds on this seed.
    spec fn prf_ok(&self, seed: Seq<bool>) -> bool;

    /// The output on this seed.
    spec fn prf(&self, seed: Seq<bool>) -> Seq<bool>;

    /// The fixed output width.
    spec fn out_size(&self) -> nat;

    /// Every output has the fixed width.
    proof fn lemma_prf_len(&self, seed: Seq<bool>)
        ensures
            self.prf(seed).len() == self.out_size(),
    ;

    /// Evaluate the PRF on the seed, or report the failure.
    fn compute(&self, seed: &B) -> (r: Result<B, PRFError>)
        ensures
            r is Ok <==> self.prf_ok(seed.bits()),
            r matches Ok(out) ==> out.bits() == self.prf(seed.bits()),
    ;
}

} // verus!
