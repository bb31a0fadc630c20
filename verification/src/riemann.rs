//! The integer side of the Riemann-sum workload: where the interval starts
//! and how the GPU pass is laid out. The sum itself is floating point and
//! is computed by the application.

use crate::gpu_layout::{elementwise_pass, layout_holds, word_bytes, PassLayout};
use crate::random::{gen_range_i32, thread_rng};
use vstd::prelude::*;

verus! {

/// The interval starts at a whole number below this bound.
pub const RIEMANN_START_BOUND: i32 = 500;

/// Width of the integrated interval.
pub const RIEMANN_WIDTH: u32 = 10;

/// Number of rectangles the CPU sums.
pub const RIEMANN_CPU_STEPS: u32 = 1000000;

/// Number of workgroups of the GPU pass, each leaving one partial sum.
pub const RIEMANN_GPU_GROUPS: u32 = 1000;

/// Number of rectangles of the stand-alone Riemann-sum program.
pub const RIEMANN_SUM_SAMPLES: u32 = 1000;

/// Start of the integrated interval, drawn from the thread's generator.
pub fn riemann_start() -> (start: i32)
    ensures
        0 <= start < RIEMANN_START_BOUND,
{
    let mut rng = thread_rng();
    gen_range_i32(&mut rng, 0, RIEMANN_START_BOUND)
}

/// Layout of the GPU pass: one workgroup per partial sum, each partial sum
/// a four-byte float, all of them copied out.
pub fn riemann_pass() -> (layout: PassLayout)
    ensures
        layout.groups == RIEMANN_GPU_GROUPS,
        layout.output_size == word_bytes(RIEMANN_GPU_GROUPS as nat),
        layout.copy_size == word_bytes(RIEMANN_GPU_GROUPS as nat),
        layout_holds(layout, RIEMANN_GPU_GROUPS as nat),
{
    elementwise_pass(RIEMANN_GPU_GROUPS as usize)
}

/// Layout of the pass of the stand-alone Riemann-sum program: one
/// workgroup per rectangle, each leaving a four-byte float.
pub fn riemann_sum_pass() -> (layout: PassLayout)
    ensures
        layout.groups == RIEMANN_SUM_SAMPLES,
        layout.output_size == word_bytes(RIEMANN_SUM_SAMPLES as nat),
        layout.copy_size == word_bytes(RIEMANN_SUM_SAMPLES as nat),
        layout_holds(layout, RIEMANN_SUM_SAMPLES as nat),
{
    elementwise_pass(RIEMANN_SUM_SAMPLES as usize)
}

} // verus!
