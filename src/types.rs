//! Plain values that configure a dispatcher, and its error type.
use vstd::prelude::*;

verus! {

/// Identifies one accelerator device.
#[derive(Clone, Copy, Debug, PartialEq, Eq, Structural)]
pub enum GPUSelector {
    /// The device on this PCI bus.
    BusId(u32),
    /// The device at this position in the platform's device list.
    Index(usize),
}

/// Which engine a dispatcher runs on.
#[derive(Clone, Copy, Debug, PartialEq, Eq, Structural)]
pub enum BatcherType {
    /// An accelerator device picked by the given selector.
    CustomGPU(GPUSelector),
    /// The platform's default accelerator device.
    GPU,
    /// The software engine.
    CPU,
}

/// The parameterisation level of the hash: it picks round counts and
/// constants, never the interface.
#[derive(Clone, Copy, Debug, PartialEq, Eq, Structural)]
pub enum Strength {
    Standard,
    Strengthened,
}

/// The strength used when none is given.
pub const DEFAULT_STRENGTH: Strength = Strength::Standard;

/// What can go wrong when a dispatcher is built or used.
#[derive(Clone, Copy, Debug, PartialEq, Eq, Structural)]
pub enum Error {
    /// The engine, or the accelerator context it needs, could not be built.
    BackendConstructionFailed,
    /// An accelerator was asked for where this build or platform has none.
    UnsupportedBackend,
    /// The batch holds more preimages than the backend's maximum.
    BatchTooLarge,
    /// The backend failed while hashing.
    ComputationFailed,
}

impl BatcherType {
    /// Whether this selector asks for an accelerator.
    pub open spec fn is_accelerator(self) -> bool {
        !(self is CPU)
    }
}

} // verus!
