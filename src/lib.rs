//! A capability-ownership and type-state engine for components running on a
//! capability-based microkernel.
//!
//! Every operation that needs the kernel is split in two verified halves: an
//! `*_invocation` function checks every precondition that can be checked
//! locally and describes the kernel invocation to perform; the operation
//! itself consumes its inputs, takes the status code the kernel answered with
//! and yields the new capabilities (or the error). The caller performs the
//! invocation in between.
pub mod bootstrap;
pub mod cap;
pub mod cnode;
pub mod error;
pub mod fault;
pub mod invocation;
pub mod irq;
pub mod process;
pub mod untyped;
pub mod vspace;
mod sealed;
