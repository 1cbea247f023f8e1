//! The hashing capability that every backend offers, and the ways the
//! dispatcher builds each kind of backend.
use vstd::prelude::*;

use paired::bls12_381::Fr;
use crate::types::{Error, GPUSelector, Strength};

verus! {

/// A preimage: a fixed number of field elements, as many as the arity of the
/// hash. Its type fixes the arity.
pub trait Preimage: Sized {
    /// The hash of this preimage at the given strength, for the arity that
    /// the type fixes. Every backend computes this same function.
    spec fn spec_reference(&self, strength: Strength) -> Fr;
}

/// The outputs owed for `preimages` by a backend in state `b`: one per
/// preimage, in order, each the backend's hash of that preimage.
pub open spec fn batch_digests<P, B: BatchHasher<P>>(b: B, preimages: Seq<P>) -> Seq<Fr> {
    preimages.map_values(|p: P| b.digest(p))
}

/// Whether `r` is a result that the hashing capability allows for
/// `preimages` on a backend in state `b`: the contract of `BatchHasher::hash`
/// on its result, as one predicate.
pub open spec fn hash_outcome<P, B: BatchHasher<P>>(
    b: B,
    preimages: Seq<P>,
    r: Result<Vec<Fr>, Error>,
) -> bool {
    &&& (preimages.len() > b.spec_max_batch_size() <==> r == Err::<Vec<Fr>, Error>(
        Error::BatchTooLarge,
    ))
    &&& (preimages.len() == 0 ==> r is Ok)
    &&& (!b.spec_may_fault() && preimages.len() <= b.spec_max_batch_size() ==> r is Ok)
    &&& (r is Ok ==> r->Ok_0@ == batch_digests(b, preimages))
    &&& (r is Err ==> r->Err_0 == Error::BatchTooLarge || r->Err_0 == Error::ComputationFailed)
}

/// Whether `after` is the same backend as `before`: the contract of
/// `BatchHasher::hash` on the backend itself. A call to `hash` changes neither
/// its maximum batch size, nor its strength, nor whether it may fault, nor the
/// function it applies to each preimage.
pub open spec fn same_backend<P, B: BatchHasher<P>>(before: B, after: B) -> bool {
    &&& after.spec_max_batch_size() == before.spec_max_batch_size()
    &&& after.spec_strength() == before.spec_strength()
    &&& after.spec_may_fault() == before.spec_may_fault()
    &&& forall|p: P| #[trigger] after.digest(p) == before.digest(p)
}

/// Whether backend `h` hashes every preimage as the reference hash does at
/// `strength`.
pub open spec fn hashes_as_reference<P: Preimage, B: BatchHasher<P>>(h: B, strength: Strength) -> bool {
    forall|p: P| #[trigger] h.digest(p) == p.spec_reference(strength)
}

/// Hashes batches of preimages of type `P`, each to one field element.
pub trait BatchHasher<P>: Sized {
    /// The largest batch that `hash` accepts, fixed when the backend is built.
    spec fn spec_max_batch_size(&self) -> usize;

    /// The strength the backend was built with.
    spec fn spec_strength(&self) -> Strength;

    /// Whether `hash` may fail on a batch within the maximum, as an
    /// accelerator may when its device faults.
    spec fn spec_may_fault(&self) -> bool;

    /// The hash of one preimage on this backend.
    spec fn digest(&self, preimage: P) -> Fr;

    /// Hashes each preimage of the batch: output `i` belongs to preimage `i`.
    /// A batch larger than the maximum fails with `BatchTooLarge`; an empty
    /// one gives an empty output; on a backend that cannot fault, every batch
    /// within the maximum succeeds.
    fn hash(&mut self, preimages: &[P]) -> (r: Result<Vec<Fr>, Error>)
        ensures
            final(self).spec_max_batch_size() == old(self).spec_max_batch_size(),
            final(self).spec_strength() == old(self).spec_strength(),
            final(self).spec_may_fault() == old(self).spec_may_fault(),
            forall|p: P| #[trigger] final(self).digest(p) == old(self).digest(p),
            preimages@.len() > old(self).spec_max_batch_size() <==> r == Err::<Vec<Fr>, Error>(
                Error::BatchTooLarge,
            ),
            preimages@.len() == 0 ==> r is Ok,
            !old(self).spec_may_fault() && preimages@.len() <= old(self).spec_max_batch_size()
                ==> r is Ok,
            r is Ok ==> r->Ok_0@ == preimages@.map_values(|p: P| old(self).digest(p)),
            r is Err ==> r->Err_0 == Error::BatchTooLarge || r->Err_0 == Error::ComputationFailed,
    ;

    /// The largest batch that `hash` accepts.
    fn max_batch_size(&self) -> (r: usize)
        ensures
            r == self.spec_max_batch_size(),
    ;
}

/// A software engine, built from a strength and a batch maximum. It computes
/// the reference hash and never faults; it can be built for every positive
/// maximum.
pub trait SoftwareBatchHasher<P: Preimage>: BatchHasher<P> {
    /// Builds the engine. On success it has the given strength and maximum.
    fn new_with_strength(strength: Strength, max_batch_size: usize) -> (r: Result<Self, Error>)
        ensures
            max_batch_size > 0 ==> r is Ok,
            r matches Ok(h) ==> h.spec_strength() == strength && h.spec_max_batch_size()
                == max_batch_size && !h.spec_may_fault() && forall|p: P| #[trigger]
                h.digest(p) == p.spec_reference(strength),
            r matches Err(e) ==> e == Error::BackendConstructionFailed,
    ;
}

/// An accelerator engine, built on a runtime context for one device. It
/// computes the reference hash, but its device may fault.
pub trait GPUBatchHasher<P: Preimage>: BatchHasher<P> {
    /// A runtime context bound to one device.
    type Context;

    /// Whether this build and platform can run the accelerator at all.
    spec fn spec_available() -> bool;

    /// The device that `context` is bound to: `None` for the platform's
    /// default device, `Some(selector)` for the one a selector named.
    spec fn spec_context_device(context: Self::Context) -> Option<GPUSelector>;

    /// The device this engine runs on, as for `spec_context_device`.
    spec fn spec_device(&self) -> Option<GPUSelector>;

    /// Whether this build and platform can run the accelerator at all.
    fn available() -> (r: bool)
        ensures
            r == Self::spec_available(),
    ;

    /// Acquires a context on the platform's default device.
    fn default_context() -> (r: Result<Self::Context, Error>)
        requires
            Self::spec_available(),
        ensures
            r matches Ok(c) ==> Self::spec_context_device(c) == None::<GPUSelector>,
            r matches Err(e) ==> e == Error::BackendConstructionFailed,
    ;

    /// Acquires a context on the device that `selector` names.
    fn context_for(selector: GPUSelector) -> (r: Result<Self::Context, Error>)
        requires
            Self::spec_available(),
        ensures
            r matches Ok(c) ==> Self::spec_context_device(c) == Some(selector),
            r matches Err(e) ==> e == Error::BackendConstructionFailed,
    ;

    /// Builds the engine on `context`. On success it has the given strength
    /// and maximum, and runs on the context's device.
    fn new_with_strength(context: Self::Context, strength: Strength, max_batch_size: usize) -> (r:
        Result<Self, Error>)
        requires
            Self::spec_available(),
        ensures
            r matches Ok(h) ==> h.spec_strength() == strength && h.spec_max_batch_size()
                == max_batch_size && h.spec_device() == Self::spec_context_device(context)
                && forall|p: P| #[trigger] h.digest(p) == p.spec_reference(strength),
            r matches Err(e) ==> e == Error::BackendConstructionFailed,
    ;
}

} // verus!
