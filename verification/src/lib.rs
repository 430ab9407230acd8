//! Firmware logic for seizing a multi-core PowerPC machine: encoding and
//! installing exception-vector trampolines, per-core register-context
//! save/restore, a pluggable exception dispatcher, and the startup rendezvous
//! barrier that parks every hardware thread under firmware control.
//!
//! All hardware access (memory-mapped registers, special-purpose registers,
//! the privileged context-switch instruction) happens outside this crate; the
//! functions here compute what is written where, and decide what happens next,
//! from plain values handed in by the caller.

pub mod barrier;
pub mod context;
pub mod dispatch;
pub mod iic;
pub mod insn;
pub mod mode;
pub mod mutex;
pub mod patch;
pub mod smc;
pub mod time;
pub mod uart;
pub mod vectors;
