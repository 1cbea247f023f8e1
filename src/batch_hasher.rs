//! The dispatcher, which owns one backend chosen when it is built and
//! forwards every call to it, and the stand-in for a missing accelerator.
use vstd::prelude::*;

use crate::hasher::{hashes_as_reference, BatchHasher, GPUBatchHasher, Preimage, SoftwareBatchHasher};
use crate::types::{BatcherType, Error, GPUSelector, Strength, DEFAULT_STRENGTH};
use paired::bls12_381::Fr;
use std::marker::PhantomData;

verus! {

/// A dispatcher that owns exactly one backend: an accelerator engine `G` or
/// a software engine `S`.
pub enum Batcher<S, G> {
    GPU(G),
    CPU(S),
}

/// What a dispatcher built from selector `t` with the given strength and
/// maximum is like, and which error a failed construction reports: on
/// success it owns the kind of backend `t` asks for, on the device `t` names,
/// with that strength and maximum, and it hashes as the reference hash does;
/// a software engine, which cannot fault, is built for every positive maximum.
pub open spec fn construction_outcome<P: Preimage, S: SoftwareBatchHasher<P>, G: GPUBatchHasher<P>>(
    strength: Strength,
    t: BatcherType,
    max_batch_size: usize,
    r: Result<Batcher<S, G>, Error>,
) -> bool {
    match r {
        Ok(b) => {
            &&& b.spec_backend_type() == (if t is CPU {
                BatcherType::CPU
            } else {
                BatcherType::GPU
            })
            &&& t.is_accelerator() ==> G::spec_available()
            &&& BatchHasher::<P>::spec_strength(&b) == strength
            &&& BatchHasher::<P>::spec_max_batch_size(&b) == max_batch_size
            &&& hashes_as_reference::<P, Batcher<S, G>>(b, strength)
            &&& (t is CPU ==> !BatchHasher::<P>::spec_may_fault(&b))
            &&& (t matches BatcherType::CustomGPU(sel) ==> b->GPU_0.spec_device() == Some(sel))
            &&& (t is GPU ==> b->GPU_0.spec_device() == None::<GPUSelector>)
        },
        Err(e) => {
            &&& !(t is CPU && max_batch_size > 0)
            &&& e == (if t.is_accelerator() && !G::spec_available() {
                Error::UnsupportedBackend
            } else {
                Error::BackendConstructionFailed
            })
        },
    }
}

impl<S, G> Batcher<S, G> {
    /// Which kind of backend this dispatcher owns.
    pub open spec fn spec_backend_type(&self) -> BatcherType {
        match self {
            Batcher::GPU(_) => BatcherType::GPU,
            Batcher::CPU(_) => BatcherType::CPU,
        }
    }

    /// Which kind of backend this dispatcher owns: `GPU` for any accelerator
    /// device, `CPU` for the software engine.
    pub fn backend_type(&self) -> (r: BatcherType)
        ensures
            r == self.spec_backend_type(),
    {
        match self {
            Batcher::GPU(_) => BatcherType::GPU,
            Batcher::CPU(_) => BatcherType::CPU,
        }
    }

    /// Builds a dispatcher of the default strength on the backend that `t`
    /// selects.
    pub fn new<P>(t: &BatcherType, max_batch_size: usize) -> (r: Result<Self, Error>) where
        P: Preimage,
        S: SoftwareBatchHasher<P>,
        G: GPUBatchHasher<P>,

        ensures
            construction_outcome::<P, S, G>(DEFAULT_STRENGTH, *t, max_batch_size, r),
            t.is_accelerator() && !G::spec_available() ==> r is Err,
            *t == BatcherType::CPU && max_batch_size > 0 ==> r is Ok,
    {
        Self::new_with_strength::<P>(DEFAULT_STRENGTH, t, max_batch_size)
    }

    /// Builds a dispatcher on the backend that `t` selects. An accelerator on
    /// a build or platform that has none gives `UnsupportedBackend`; a backend
    /// or context that cannot be built gives `BackendConstructionFailed`.
    pub fn new_with_strength<P>(strength: Strength, t: &BatcherType, max_batch_size: usize) -> (r:
        Result<Self, Error>) where
        P: Preimage,
        S: SoftwareBatchHasher<P>,
        G: GPUBatchHasher<P>,

        ensures
            construction_outcome::<P, S, G>(strength, *t, max_batch_size, r),
            t.is_accelerator() && !G::spec_available() ==> r is Err,
            *t == BatcherType::CPU && max_batch_size > 0 ==> r is Ok,
    {
        match t {
            BatcherType::CPU => match S::new_with_strength(strength, max_batch_size) {
                Ok(h) => Ok(Batcher::CPU(h)),
                Err(e) => Err(e),
            },
            BatcherType::GPU => {
                if !G::available() {
                    return Err(Error::UnsupportedBackend);
                }
                match G::default_context() {
                    Ok(context) => Self::on_context::<P>(context, strength, max_batch_size),
                    Err(e) => Err(e),
                }
            },
            BatcherType::CustomGPU(selector) => {
                if !G::available() {
                    return Err(Error::UnsupportedBackend);
                }
                match G::context_for(*selector) {
                    Ok(context) => Self::on_context::<P>(context, strength, max_batch_size),
                    Err(e) => Err(e),
                }
            },
        }
    }

    /// Builds the accelerator engine on a context already acquired.
    fn on_context<P>(context: G::Context, strength: Strength, max_batch_size: usize) -> (r: Result<
        Self,
        Error,
    >) where
        P: Preimage,
        S: SoftwareBatchHasher<P>,
        G: GPUBatchHasher<P>,

        requires
            G::spec_available(),
        ensures
            r matches Ok(b) ==> {
                &&& b is GPU
                &&& BatchHasher::<P>::spec_strength(&b) == strength
                &&& BatchHasher::<P>::spec_max_batch_size(&b) == max_batch_size
                &&& hashes_as_reference::<P, Self>(b, strength)
                &&& b->GPU_0.spec_device() == G::spec_context_device(context)
            },
            r matches Err(e) ==> e == Error::BackendConstructionFailed,
    {
        match G::new_with_strength(context, strength, max_batch_size) {
            Ok(h) => Ok(Batcher::GPU(h)),
            Err(e) => Err(e),
        }
    }
}

impl<P, S: BatchHasher<P>, G: BatchHasher<P>> BatchHasher<P> for Batcher<S, G> {
    open spec fn spec_max_batch_size(&self) -> usize {
        match self {
            Batcher::GPU(h) => h.spec_max_batch_size(),
            Batcher::CPU(h) => h.spec_max_batch_size(),
        }
    }

    open spec fn spec_strength(&self) -> Strength {
        match self {
            Batcher::GPU(h) => h.spec_strength(),
            Batcher::CPU(h) => h.spec_strength(),
        }
    }

    open spec fn spec_may_fault(&self) -> bool {
        match self {
            Batcher::GPU(h) => h.spec_may_fault(),
            Batcher::CPU(h) => h.spec_may_fault(),
        }
    }

    open spec fn digest(&self, preimage: P) -> Fr {
        match self {
            Batcher::GPU(h) => h.digest(preimage),
            Batcher::CPU(h) => h.digest(preimage),
        }
    }

    /// Hands the batch to the owned backend, unchanged. The dispatcher keeps
    /// its backend.
    fn hash(&mut self, preimages: &[P]) -> (r: Result<Vec<Fr>, Error>)
        ensures
            final(self).spec_backend_type() == old(self).spec_backend_type(),
    {
        match self {
            Batcher::GPU(h) => h.hash(preimages),
            Batcher::CPU(h) => h.hash(preimages),
        }
    }

    /// The owned backend's maximum batch size.
    fn max_batch_size(&self) -> (r: usize) {
        match self {
            Batcher::GPU(h) => h.max_batch_size(),
            Batcher::CPU(h) => h.max_batch_size(),
        }
    }
}

/// The accelerator engine of a build or platform that has none. It reports
/// itself unavailable, so a dispatcher never builds one, and its invariant
/// never holds, so no value of it can exist: its hashing operations are
/// unreachable.
pub struct NoGPUBatchHasher<P>(PhantomData<P>);

impl<P> NoGPUBatchHasher<P> {
    /// Never holds.
    #[verifier::type_invariant]
    spec fn exists_not(&self) -> bool {
        false
    }
}

impl<P> BatchHasher<P> for NoGPUBatchHasher<P> {
    open spec fn spec_max_batch_size(&self) -> usize {
        0
    }

    open spec fn spec_strength(&self) -> Strength {
        DEFAULT_STRENGTH
    }

    open spec fn spec_may_fault(&self) -> bool {
        true
    }

    open spec fn digest(&self, preimage: P) -> Fr {
        arbitrary()
    }

    /// Unreachable: no value of the type exists.
    fn hash(&mut self, preimages: &[P]) -> (r: Result<Vec<Fr>, Error>) {
        proof {
            use_type_invariant(&*self);
            assert(false);
        }
        Err(Error::UnsupportedBackend)
    }

    /// Unreachable: no value of the type exists.
    fn max_batch_size(&self) -> (r: usize) {
        proof {
            use_type_invariant(self);
            assert(false);
        }
        0
    }
}

impl<P: Preimage> GPUBatchHasher<P> for NoGPUBatchHasher<P> {
    type Context = ();

    open spec fn spec_available() -> bool {
        false
    }

    open spec fn spec_context_device(context: ()) -> Option<GPUSelector> {
        None
    }

    open spec fn spec_device(&self) -> Option<GPUSelector> {
        None
    }

    fn available() -> (r: bool) {
        false
    }

    fn default_context() -> (r: Result<(), Error>) {
        Err(Error::UnsupportedBackend)
    }

    fn context_for(selector: GPUSelector) -> (r: Result<(), Error>) {
        Err(Error::UnsupportedBackend)
    }

    fn new_with_strength(context: (), strength: Strength, max_batch_size: usize) -> (r: Result<
        Self,
        Error,
    >) {
        Err(Error::UnsupportedBackend)
    }
}

} // verus!
