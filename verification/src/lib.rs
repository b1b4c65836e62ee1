//! Strided tensor views over device buffers, and the dispatch policy that maps
//! linear-algebra operations onto compute kernels.
//!
//! The library computes and checks; it never talks to a device. A tensor
//! owns a buffer of a type the caller chooses, views borrow it, and each
//! dispatcher answers with the kernel to launch, its arguments and the
//! number of invocations.
//!
//! An operation that does not take every request comes in two forms. The
//! one, say `view`, states what it asks of a request as its precondition and
//! gives the value. The other, `try_view`, takes any request, tests it, and
//! gives the value or the reason why there is none.

pub mod error;
pub mod geometry;
pub mod layout;
pub mod linalg;
pub mod shape_cache;
pub mod shape_laws;
pub mod shapes;
pub mod tensor;
pub mod tensor_resize;
pub mod tensor_view;
pub mod usage;

pub use geometry::WgInv;
pub use linalg::{
    BinOpArgs, BinOpOffsets, Contiguous, Gemm, GemmVariant, Gemv, GemvVariant, KernelLaunch,
    MatrixMode, OpAssign, OpAssignVariant, Reduce, ReduceVariant, Repeat, Workload, N, T,
};
