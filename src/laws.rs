//! Properties that hold across several calls on a dispatcher, proved from
//! the contracts of construction and of the hashing capability.
use vstd::prelude::*;

use crate::batch_hasher::{construction_outcome, Batcher};
use crate::hasher::{
    hash_outcome, same_backend, BatchHasher, GPUBatchHasher, Preimage, SoftwareBatchHasher,
};
use crate::types::{BatcherType, Error, Strength};
use paired::bls12_381::Fr;

verus! {

/// Building a software dispatcher with a positive maximum succeeds, for
/// every strength and every preimage type; it then owns a software engine of
/// that strength and maximum, which cannot fault and hashes as the reference
/// does. With a maximum of zero it can fail only as the engine's construction.
pub proof fn lemma_software_construction<P: Preimage, S: SoftwareBatchHasher<P>, G: GPUBatchHasher<P>>(
    strength: Strength,
    max_batch_size: usize,
    r: Result<Batcher<S, G>, Error>,
)
    requires
        construction_outcome::<P, S, G>(strength, BatcherType::CPU, max_batch_size, r),
    ensures
        max_batch_size > 0 ==> r is Ok,
        r matches Err(e) ==> e == Error::BackendConstructionFailed,
        r matches Ok(b) ==> {
            &&& b is CPU
            &&& b.spec_backend_type() == BatcherType::CPU
            &&& BatchHasher::<P>::spec_strength(&b) == strength
            &&& BatchHasher::<P>::spec_max_batch_size(&b) == max_batch_size
            &&& !BatchHasher::<P>::spec_may_fault(&b)
            &&& forall|p: P| #[trigger] BatchHasher::<P>::digest(&b, p) == p.spec_reference(strength)
        },
{
}

/// Requesting an accelerator where the build or platform has none gives
/// `UnsupportedBackend`, whichever device was asked for.
pub proof fn lemma_missing_accelerator<P: Preimage, S: SoftwareBatchHasher<P>, G: GPUBatchHasher<P>>(
    strength: Strength,
    t: BatcherType,
    max_batch_size: usize,
    r: Result<Batcher<S, G>, Error>,
)
    requires
        t.is_accelerator(),
        !G::spec_available(),
        construction_outcome::<P, S, G>(strength, t, max_batch_size, r),
    ensures
        r == Err::<Batcher<S, G>, Error>(Error::UnsupportedBackend),
{
}

/// Two dispatchers built from the same selector, strength and maximum own
/// the same kind of backend with the same maximum, and hash every preimage
/// alike.
pub proof fn lemma_constructions_agree<P: Preimage, S: SoftwareBatchHasher<P>, G: GPUBatchHasher<P>>(
    strength: Strength,
    t: BatcherType,
    max_batch_size: usize,
    b1: Batcher<S, G>,
    b2: Batcher<S, G>,
)
    requires
        construction_outcome::<P, S, G>(strength, t, max_batch_size, Ok(b1)),
        construction_outcome::<P, S, G>(strength, t, max_batch_size, Ok(b2)),
    ensures
        b1.spec_backend_type() == b2.spec_backend_type(),
        BatchHasher::<P>::spec_max_batch_size(&b1) == BatchHasher::<P>::spec_max_batch_size(&b2),
        forall|p: P|
            #[trigger] BatchHasher::<P>::digest(&b1, p) == BatchHasher::<P>::digest(&b2, p),
{
    assert forall|p: P| #[trigger]
        BatchHasher::<P>::digest(&b1, p) == BatchHasher::<P>::digest(&b2, p) by {
        assert(BatchHasher::<P>::digest(&b1, p) == p.spec_reference(strength));
        assert(BatchHasher::<P>::digest(&b2, p) == p.spec_reference(strength));
    }
}

/// The maximum batch size of a dispatcher is the one it was built with, in
/// every later state, and so is the kind of backend it owns: `states[0]` is
/// the dispatcher as built, and each state comes from the one before by a
/// call to `hash`.
pub proof fn lemma_max_batch_size_fixed<P: Preimage, S: SoftwareBatchHasher<P>, G: GPUBatchHasher<P>>(
    strength: Strength,
    t: BatcherType,
    max_batch_size: usize,
    states: Seq<Batcher<S, G>>,
)
    requires
        states.len() > 0,
        construction_outcome::<P, S, G>(strength, t, max_batch_size, Ok(states[0])),
        forall|i: int|
            0 <= i < states.len() - 1 ==> {
                &&& same_backend::<P, Batcher<S, G>>(#[trigger] states[i], states[i + 1])
                &&& states[i + 1].spec_backend_type() == states[i].spec_backend_type()
            },
    ensures
        forall|i: int|
            0 <= i < states.len() ==> {
                &&& BatchHasher::<P>::spec_max_batch_size(&#[trigger] states[i]) == max_batch_size
                &&& states[i].spec_backend_type() == states[0].spec_backend_type()
            },
    decreases states.len(),
{
    if states.len() > 1 {
        let front = states.drop_last();
        lemma_max_batch_size_fixed::<P, S, G>(strength, t, max_batch_size, front);
        assert forall|i: int| 0 <= i < states.len() implies {
            &&& BatchHasher::<P>::spec_max_batch_size(&#[trigger] states[i]) == max_batch_size
            &&& states[i].spec_backend_type() == states[0].spec_backend_type()
        } by {
            assert(front[0] == states[0]);
            if i < states.len() - 1 {
                assert(front[i] == states[i]);
            } else {
                assert(front[i - 1] == states[i - 1]);
                assert(same_backend::<P, Batcher<S, G>>(states[i - 1], states[i]));
            }
        }
    }
}

/// A batch within the maximum gives one output per preimage when it
/// succeeds, and can then fail only in the computation, which a backend that
/// cannot fault never does; the empty batch gives the empty output.
pub proof fn lemma_output_length<P, B: BatchHasher<P>>(
    b: B,
    preimages: Seq<P>,
    r: Result<Vec<Fr>, Error>,
)
    requires
        hash_outcome(b, preimages, r),
        preimages.len() <= b.spec_max_batch_size(),
    ensures
        r matches Ok(out) ==> out@.len() == preimages.len(),
        r matches Err(e) ==> e == Error::ComputationFailed && b.spec_may_fault(),
        preimages.len() == 0 ==> (r matches Ok(out) && out@.len() == 0),
{
}

/// A software dispatcher hashes every batch within its maximum: output `i`
/// is the reference hash of preimage `i` at the dispatcher's strength.
pub proof fn lemma_software_hash<P: Preimage, S: SoftwareBatchHasher<P>, G: GPUBatchHasher<P>>(
    strength: Strength,
    max_batch_size: usize,
    b: Batcher<S, G>,
    preimages: Seq<P>,
    r: Result<Vec<Fr>, Error>,
)
    requires
        construction_outcome::<P, S, G>(strength, BatcherType::CPU, max_batch_size, Ok(b)),
        hash_outcome(b, preimages, r),
        preimages.len() <= max_batch_size,
    ensures
        r matches Ok(out) && out@ == preimages.map_values(|p: P| p.spec_reference(strength)),
{
    assert(r->Ok_0@ =~= preimages.map_values(|p: P| p.spec_reference(strength)));
}

/// Two calls to `hash` with the same batch, the second on the state the
/// first left, give the same output when both succeed.
pub proof fn lemma_hash_deterministic<P, B: BatchHasher<P>>(
    before: B,
    after: B,
    preimages: Seq<P>,
    r1: Result<Vec<Fr>, Error>,
    r2: Result<Vec<Fr>, Error>,
)
    requires
        hash_outcome(before, preimages, r1),
        same_backend(before, after),
        hash_outcome(after, preimages, r2),
    ensures
        r1 is Ok && r2 is Ok ==> r1->Ok_0@ == r2->Ok_0@,
        r1 == Err::<Vec<Fr>, Error>(Error::BatchTooLarge) <==> r2 == Err::<Vec<Fr>, Error>(
            Error::BatchTooLarge,
        ),
{
    if r1 is Ok && r2 is Ok {
        assert(r1->Ok_0@ =~= r2->Ok_0@);
    }
}

/// A software dispatcher and an accelerator dispatcher built with the same
/// strength give the same output for the same batch, the reference hash of
/// each preimage, whenever the accelerator's device does not fault; and a
/// software dispatcher always succeeds on a batch within both maxima.
pub proof fn lemma_backends_agree<P: Preimage, S: SoftwareBatchHasher<P>, G: GPUBatchHasher<P>>(
    strength: Strength,
    t: BatcherType,
    cpu_max: usize,
    gpu_max: usize,
    cpu: Batcher<S, G>,
    gpu: Batcher<S, G>,
    preimages: Seq<P>,
    r1: Result<Vec<Fr>, Error>,
    r2: Result<Vec<Fr>, Error>,
)
    requires
        t.is_accelerator(),
        construction_outcome::<P, S, G>(strength, BatcherType::CPU, cpu_max, Ok(cpu)),
        construction_outcome::<P, S, G>(strength, t, gpu_max, Ok(gpu)),
        preimages.len() <= cpu_max,
        preimages.len() <= gpu_max,
        hash_outcome(cpu, preimages, r1),
        hash_outcome(gpu, preimages, r2),
    ensures
        r1 is Ok,
        r2 is Ok ==> r1->Ok_0@ == r2->Ok_0@,
        r2 is Ok ==> r2->Ok_0@ == preimages.map_values(|p: P| p.spec_reference(strength)),
{
    assert(r1->Ok_0@ =~= preimages.map_values(|p: P| p.spec_reference(strength)));
    if r2 is Ok {
        assert(r2->Ok_0@ =~= preimages.map_values(|p: P| p.spec_reference(strength)));
    }
}

} // verus!
