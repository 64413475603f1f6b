//! A verified block-storage controller core for a command-queue protocol
//! device, together with the storage bookkeeping layers built on top of it.
//!
//! The controller programs a memory-mapped register window, owns
//! submission/completion ring pairs, and moves data between host buffers and
//! a namespace's blocks.  The device side is a deterministic model against
//! which the driver's contracts are stated and proved.

pub mod bytes;
pub mod regs;
pub mod ctrl;
pub mod device;
pub mod identify;
pub mod queue;
pub mod status;
pub mod storage;
pub mod wire;
