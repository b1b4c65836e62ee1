//! Dispatchers: for each operation, the choice of a kernel, of its
//! arguments and of the number of invocations.

pub mod contiguous;
pub mod gemm;
pub mod gemv;
pub mod gemv_laws;
pub mod launch;
pub mod op_assign;
pub mod reduce;
pub mod repeat;

pub use contiguous::Contiguous;
pub use gemm::{Gemm, GemmVariant};
pub use gemv::{Gemv, GemvVariant, MatrixMode, N, T};
pub use launch::{KernelLaunch, Workload};
pub use op_assign::{BinOpArgs, BinOpOffsets, OpAssign, OpAssignVariant};
pub use reduce::{Reduce, ReduceVariant};
pub use repeat::Repeat;
