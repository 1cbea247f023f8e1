use generic_array::typenum::{U2, U48};
use generic_array::GenericArray;
use neptune::batch_hasher::{Batcher, NoGPUBatchHasher};
use neptune::hasher::{BatchHasher, GPUBatchHasher, Preimage, SoftwareBatchHasher};
use neptune::types::{BatcherType, Error, GPUSelector, Strength, DEFAULT_STRENGTH};
use paired::bls12_381::Fr;
use paired::BaseFromRO;

/// Two field elements: a preimage for arity two.
#[derive(Clone, Debug, PartialEq)]
struct Pair(GenericArray<Fr, U2>);

impl Preimage for Pair {
    fn spec_reference(&self, strength: Strength) -> Fr {
        toy_hash(strength, self)
    }
}

fn fr(k: u8) -> Fr {
    Fr::from_okm(&GenericArray::<u8, U48>::clone_from_slice(&[k; 48]))
}

fn preimage(a: u8, b: u8) -> Pair {
    Pair(GenericArray::clone_from_slice(&[fr(a), fr(b)]))
}

/// A stand-in hash: it depends on the preimage and the strength only.
fn toy_hash(strength: Strength, p: &Pair) -> Fr {
    match strength {
        Strength::Standard => p.0[0],
        Strength::Strengthened => p.0[1],
    }
}

fn batch_on(strength: Strength, max: usize, preimages: &[Pair]) -> Result<Vec<Fr>, Error> {
    if preimages.len() > max {
        return Err(Error::BatchTooLarge);
    }
    Ok(preimages.iter().map(|p| toy_hash(strength, p)).collect())
}

struct CpuEngine {
    strength: Strength,
    max: usize,
}

impl BatchHasher<Pair> for CpuEngine {
    fn spec_max_batch_size(&self) -> usize {
        self.max
    }

    fn spec_strength(&self) -> Strength {
        self.strength
    }

    fn spec_may_fault(&self) -> bool {
        false
    }

    fn digest(&self, preimage: Pair) -> Fr {
        toy_hash(self.strength, &preimage)
    }

    fn hash(&mut self, preimages: &[Pair]) -> Result<Vec<Fr>, Error> {
        batch_on(self.strength, self.max, preimages)
    }

    fn max_batch_size(&self) -> usize {
        self.max
    }
}

impl SoftwareBatchHasher<Pair> for CpuEngine {
    fn new_with_strength(strength: Strength, max_batch_size: usize) -> Result<Self, Error> {
        if max_batch_size == 0 {
            return Err(Error::BackendConstructionFailed);
        }
        Ok(CpuEngine { strength, max: max_batch_size })
    }
}

/// An accelerator with two devices, indices 0 and 1; device 1 faults on
/// every batch that is not empty.
struct DeviceEngine {
    device: usize,
    selector: Option<GPUSelector>,
    strength: Strength,
    max: usize,
}

impl BatchHasher<Pair> for DeviceEngine {
    fn spec_max_batch_size(&self) -> usize {
        self.max
    }

    fn spec_strength(&self) -> Strength {
        self.strength
    }

    fn spec_may_fault(&self) -> bool {
        self.device == 1
    }

    fn digest(&self, preimage: Pair) -> Fr {
        toy_hash(self.strength, &preimage)
    }

    fn hash(&mut self, preimages: &[Pair]) -> Result<Vec<Fr>, Error> {
        if self.device == 1 && preimages.len() > 0 && preimages.len() <= self.max {
            return Err(Error::ComputationFailed);
        }
        batch_on(self.strength, self.max, preimages)
    }

    fn max_batch_size(&self) -> usize {
        self.max
    }
}

impl GPUBatchHasher<Pair> for DeviceEngine {
    type Context = (usize, Option<GPUSelector>);

    fn spec_available() -> bool {
        true
    }

    fn spec_context_device(context: (usize, Option<GPUSelector>)) -> Option<GPUSelector> {
        context.1
    }

    fn spec_device(&self) -> Option<GPUSelector> {
        self.selector
    }

    fn available() -> bool {
        true
    }

    fn default_context() -> Result<(usize, Option<GPUSelector>), Error> {
        Ok((0, None))
    }

    fn context_for(selector: GPUSelector) -> Result<(usize, Option<GPUSelector>), Error> {
        match selector {
            GPUSelector::Index(i) if i < 2 => Ok((i, Some(selector))),
            _ => Err(Error::BackendConstructionFailed),
        }
    }

    fn new_with_strength(
        context: (usize, Option<GPUSelector>),
        strength: Strength,
        max_batch_size: usize,
    ) -> Result<Self, Error> {
        if max_batch_size == 0 {
            return Err(Error::BackendConstructionFailed);
        }
        Ok(DeviceEngine { device: context.0, selector: context.1, strength, max: max_batch_size })
    }
}

type Dispatcher = Batcher<CpuEngine, DeviceEngine>;
type CpuOnly = Batcher<CpuEngine, NoGPUBatchHasher<Pair>>;

fn build(strength: Strength, t: BatcherType, max: usize) -> Result<Dispatcher, Error> {
    Dispatcher::new_with_strength::<Pair>(strength, &t, max)
}

#[test]
fn software_dispatcher_builds_for_every_strength() {
    for strength in [Strength::Standard, Strength::Strengthened] {
        for max in [1usize, 2, 4, 1000] {
            let b = build(strength, BatcherType::CPU, max).unwrap();
            assert_eq!(b.backend_type(), BatcherType::CPU);
            assert_eq!(BatchHasher::<Pair>::max_batch_size(&b), max);
        }
        let b = CpuOnly::new_with_strength::<Pair>(strength, &BatcherType::CPU, 3).unwrap();
        assert_eq!(b.backend_type(), BatcherType::CPU);
    }
}

#[test]
fn new_uses_default_strength() {
    let mut b = Dispatcher::new::<Pair>(&BatcherType::CPU, 4).unwrap();
    let out = b.hash(&[preimage(1, 2)]).unwrap();
    assert_eq!(out, vec![toy_hash(DEFAULT_STRENGTH, &preimage(1, 2))]);
    assert_eq!(out, vec![fr(1)]);
}

#[test]
fn strength_reaches_the_engine() {
    let mut b = build(Strength::Strengthened, BatcherType::CPU, 4).unwrap();
    assert_eq!(b.hash(&[preimage(1, 2)]).unwrap(), vec![fr(2)]);
}

#[test]
fn max_batch_size_is_fixed() {
    let mut b = build(Strength::Standard, BatcherType::GPU, 3).unwrap();
    assert_eq!(BatchHasher::<Pair>::max_batch_size(&b), 3);
    assert_eq!(BatchHasher::<Pair>::max_batch_size(&b), 3);
    let _ = b.hash(&[preimage(1, 2)]);
    let _ = b.hash(&[preimage(1, 2), preimage(3, 4), preimage(5, 6), preimage(7, 8)]);
    assert_eq!(BatchHasher::<Pair>::max_batch_size(&b), 3);
}

#[test]
fn output_length_matches_input_length() {
    for t in [BatcherType::CPU, BatcherType::GPU] {
        let mut b = build(Strength::Standard, t, 5).unwrap();
        for n in 0..=5u8 {
            let batch: Vec<Pair> = (0..n).map(|i| preimage(i, i + 1)).collect();
            assert_eq!(b.hash(&batch).unwrap().len(), n as usize);
        }
    }
}

#[test]
fn empty_batch_gives_empty_output() {
    let mut b = build(Strength::Standard, BatcherType::CPU, 1).unwrap();
    assert_eq!(b.hash(&[]).unwrap(), Vec::<Fr>::new());
    let mut g = build(Strength::Standard, BatcherType::CustomGPU(GPUSelector::Index(1)), 1).unwrap();
    assert_eq!(g.hash(&[]).unwrap(), Vec::<Fr>::new());
}

#[test]
fn oversize_batch_is_refused() {
    for t in [BatcherType::CPU, BatcherType::GPU] {
        let mut b = build(Strength::Standard, t, 2).unwrap();
        let batch: Vec<Pair> = (0..7u8).map(|i| preimage(i, i)).collect();
        for n in 3..=7 {
            assert_eq!(b.hash(&batch[..n]), Err(Error::BatchTooLarge));
        }
    }
}

#[test]
fn software_and_accelerator_agree() {
    let batch = [preimage(1, 2), preimage(3, 4), preimage(5, 6)];
    for strength in [Strength::Standard, Strength::Strengthened] {
        let mut cpu = build(strength, BatcherType::CPU, 4).unwrap();
        let mut gpu = build(strength, BatcherType::GPU, 4).unwrap();
        assert_eq!(gpu.backend_type(), BatcherType::GPU);
        assert_eq!(cpu.hash(&batch).unwrap(), gpu.hash(&batch).unwrap());
    }
}

#[test]
fn hash_is_deterministic() {
    let batch = [preimage(9, 8), preimage(7, 6)];
    let mut b = build(Strength::Standard, BatcherType::CPU, 2).unwrap();
    let first = b.hash(&batch).unwrap();
    let second = b.hash(&batch).unwrap();
    assert_eq!(first, second);
}

#[test]
fn missing_accelerator_is_unsupported() {
    for t in [
        BatcherType::GPU,
        BatcherType::CustomGPU(GPUSelector::Index(0)),
        BatcherType::CustomGPU(GPUSelector::BusId(3)),
    ] {
        let r = CpuOnly::new_with_strength::<Pair>(Strength::Standard, &t, 4);
        assert_eq!(r.err(), Some(Error::UnsupportedBackend));
    }
    assert!(!NoGPUBatchHasher::<Pair>::available());
}

#[test]
fn bad_device_fails_construction() {
    let r = build(Strength::Standard, BatcherType::CustomGPU(GPUSelector::BusId(3)), 4);
    assert_eq!(r.err(), Some(Error::BackendConstructionFailed));
    let r = build(Strength::Standard, BatcherType::CustomGPU(GPUSelector::Index(2)), 4);
    assert_eq!(r.err(), Some(Error::BackendConstructionFailed));
}

#[test]
fn engine_failure_fails_construction() {
    let r = build(Strength::Standard, BatcherType::GPU, 0);
    assert_eq!(r.err(), Some(Error::BackendConstructionFailed));
}

#[test]
fn device_fault_is_reported() {
    let mut b = build(Strength::Standard, BatcherType::CustomGPU(GPUSelector::Index(1)), 4).unwrap();
    assert_eq!(b.backend_type(), BatcherType::GPU);
    assert_eq!(b.hash(&[preimage(1, 2)]), Err(Error::ComputationFailed));
}

#[test]
fn two_preimages_hash_in_order() {
    let mut b = build(Strength::Standard, BatcherType::CPU, 4).unwrap();
    let a = preimage(11, 12);
    let c = preimage(21, 22);
    let out = b.hash(&[a.clone(), c.clone()]).unwrap();
    assert_eq!(out.len(), 2);
    assert_eq!(out, vec![toy_hash(Strength::Standard, &a), toy_hash(Strength::Standard, &c)]);
    assert_eq!(out, vec![fr(11), fr(21)]);
    assert_ne!(out[0], out[1]);
}

#[test]
fn three_preimages_over_a_maximum_of_two() {
    let mut b = build(Strength::Standard, BatcherType::CPU, 2).unwrap();
    let batch = [preimage(1, 2), preimage(3, 4), preimage(5, 6)];
    assert_eq!(b.hash(&batch), Err(Error::BatchTooLarge));
}

#[test]
fn chosen_device_is_used() {
    let mut b = build(Strength::Standard, BatcherType::CustomGPU(GPUSelector::Index(1)), 4).unwrap();
    match &b {
        Batcher::GPU(h) => assert_eq!(h.selector, Some(GPUSelector::Index(1))),
        Batcher::CPU(_) => panic!("expected an accelerator backend"),
    }
    assert_eq!(b.hash(&[preimage(1, 2)]), Err(Error::ComputationFailed));
    let g = build(Strength::Standard, BatcherType::GPU, 4).unwrap();
    match &g {
        Batcher::GPU(h) => assert_eq!(h.selector, None),
        Batcher::CPU(_) => panic!("expected an accelerator backend"),
    }
}

#[test]
fn backend_kind_is_kept_after_hashing() {
    let mut b = build(Strength::Standard, BatcherType::CPU, 1).unwrap();
    let _ = b.hash(&[preimage(1, 2), preimage(3, 4)]);
    let _ = b.hash(&[preimage(1, 2)]);
    assert_eq!(b.backend_type(), BatcherType::CPU);
    let mut g = build(Strength::Standard, BatcherType::CustomGPU(GPUSelector::Index(0)), 1).unwrap();
    let _ = g.hash(&[preimage(1, 2)]);
    assert_eq!(g.backend_type(), BatcherType::GPU);
}

#[test]
fn new_matches_default_strength() {
    let batch = [preimage(4, 5), preimage(6, 7)];
    let mut a = Dispatcher::new::<Pair>(&BatcherType::CPU, 4).unwrap();
    let mut b = build(DEFAULT_STRENGTH, BatcherType::CPU, 4).unwrap();
    assert_eq!(a.hash(&batch).unwrap(), b.hash(&batch).unwrap());
}
