//! Verified host-side logic of a small CPU-versus-GPU compute benchmark:
//! the workloads handed to the GPU, the sizes of the buffers that carry them,
//! the CPU reference computation, and the decisions taken while rendering.

pub mod batching;
pub mod gpu_layout;
pub mod random;
pub mod riemann;
pub mod surface;
pub mod timing;
pub mod vecadd;

pub use timing::{reset_time_gap, restart_lap};
