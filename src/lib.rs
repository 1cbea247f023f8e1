//! A dispatcher that hashes batches of preimages on one backend, chosen when
//! it is built: a software engine or a hardware accelerator.
pub mod field;
pub mod types;
pub mod hasher;
pub mod batch_hasher;
pub mod laws;
