//! User-space access to per-core model-specific registers.
//!
//! A [`Msr`] names a register and a logical CPU and buffers one 64-bit
//! value. The read and write instructions exchange that value as two 32-bit
//! halves; the library joins and splits them, and the privileged instructions
//! themselves are issued by the caller's access path.

pub mod packing;
pub mod register;

pub use packing::{join_halves, split_value};
pub use register::{Accessor, Msr, WriteOperands};

