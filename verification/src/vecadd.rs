//! The vector-addition workload: two shuffled copies of `0..n`, added
//! element by element on the CPU (and, in the application, on the GPU).

use crate::random::{shuffle, thread_rng};
use rand::rngs::ThreadRng;
use vstd::prelude::*;

verus! {

broadcast use vstd::seq_lib::group_to_multiset_ensures;

/// Number of elements in each operand of the benchmark.
pub const VECADD_LEN: u32 = 500;

/// Number of leading elements shown when a run reports its vectors.
pub const PREVIEW_LEN: usize = 10;

/// The sequence `0, 1, ..., n - 1`.
pub open spec fn range_seq(n: nat) -> Seq<u32> {
    Seq::new(n, |i: int| i as u32)
}

/// `v` holds the values `0..n`, each exactly once, in some order.
pub open spec fn is_shuffled_range(v: Seq<u32>, n: nat) -> bool {
    v.to_multiset() == range_seq(n).to_multiset()
}

/// Element-wise sum of two sequences of the same length.
pub open spec fn elementwise_sum(a: Seq<u32>, b: Seq<u32>) -> Seq<int> {
    Seq::new(a.len(), |i: int| a[i] + b[i])
}

/// Each element of the element-wise sum is the sum of the two elements at
/// that index, over the whole length of the operands.
pub proof fn lemma_elementwise_sum_adds(a: Seq<u32>, b: Seq<u32>)
    requires
        a.len() == b.len(),
    ensures
        elementwise_sum(a, b).len() == a.len(),
        forall|i: int| 0 <= i < a.len() ==> #[trigger] elementwise_sum(a, b)[i] == a[i] + b[i],
{
}

/// The values `0..n` in increasing order.
pub fn ascending(n: u32) -> (v: Vec<u32>)
    ensures
        v@ == range_seq(n as nat),
{
    let mut v: Vec<u32> = Vec::new();
    let mut i: u32 = 0;
    while i < n
        invariant
            i <= n,
            v@ == range_seq(i as nat),
        decreases n - i,
    {
        v.push(i);
        i = i + 1;
    }
    v
}

/// The values `0..n` in an order drawn from `rng`.
pub fn shuffled_range(n: u32, rng: &mut ThreadRng) -> (v: Vec<u32>)
    ensures
        v@.len() == n,
        is_shuffled_range(v@, n as nat),
{
    let mut v = ascending(n);
    shuffle(&mut v, rng);
    v
}

/// The two operands of the benchmark. Each holds the values
/// `0..VECADD_LEN` in its own random order.
pub struct VecAddInputs {
    a: Vec<u32>,
    b: Vec<u32>,
}

impl View for VecAddInputs {
    type V = (Seq<u32>, Seq<u32>);

    closed spec fn view(&self) -> (Seq<u32>, Seq<u32>) {
        (self.a@, self.b@)
    }
}

impl VecAddInputs {
    #[verifier::type_invariant]
    spec fn both_shuffled(self) -> bool {
        &&& is_shuffled_range(self.a@, VECADD_LEN as nat)
        &&& is_shuffled_range(self.b@, VECADD_LEN as nat)
    }

    /// Draws both operands from the thread's generator.
    pub fn new() -> (inputs: Self)
        ensures
            inputs@.0.len() == VECADD_LEN,
            inputs@.1.len() == VECADD_LEN,
            is_shuffled_range(inputs@.0, VECADD_LEN as nat),
            is_shuffled_range(inputs@.1, VECADD_LEN as nat),
    {
        let mut rng = thread_rng();
        let a = shuffled_range(VECADD_LEN, &mut rng);
        let b = shuffled_range(VECADD_LEN, &mut rng);
        VecAddInputs { a, b }
    }

    /// The first operand.
    pub fn a(&self) -> (a: &Vec<u32>)
        ensures
            a@ == self@.0,
            a@.len() == VECADD_LEN,
            is_shuffled_range(a@, VECADD_LEN as nat),
    {
        proof {
            use_type_invariant(self);
            lemma_shuffled_range_bounded(self.a@, VECADD_LEN as nat);
        }
        &self.a
    }

    /// The second operand.
    pub fn b(&self) -> (b: &Vec<u32>)
        ensures
            b@ == self@.1,
            b@.len() == VECADD_LEN,
            is_shuffled_range(b@, VECADD_LEN as nat),
    {
        proof {
            use_type_invariant(self);
            lemma_shuffled_range_bounded(self.b@, VECADD_LEN as nat);
        }
        &self.b
    }

    /// The CPU side of the benchmark: `VECADD_LEN` sums `a[i] + b[i]`.
    /// No sum overflows, since every operand value is below `VECADD_LEN`.
    pub fn cpu_sum(&self) -> (c: Vec<u32>)
        ensures
            c@.len() == VECADD_LEN,
            forall|i: int| 0 <= i < c@.len() ==> c@[i] == elementwise_sum(self@.0, self@.1)[i],
            forall|i: int| 0 <= i < c@.len() ==> #[trigger] c@[i] == self@.0[i] + self@.1[i],
    {
        proof {
            use_type_invariant(self);
            lemma_shuffled_sums_fit(self.a@, self.b@, VECADD_LEN as nat);
        }
        cpu_vecadd(&self.a, &self.b)
    }
}

/// Every entry of a shuffled `0..n` is below `n`.
pub proof fn lemma_shuffled_range_bounded(v: Seq<u32>, n: nat)
    requires
        is_shuffled_range(v, n),
        n <= u32::MAX + 1,
    ensures
        v.len() == n,
        forall|i: int| 0 <= i < v.len() ==> v[i] < n,
{
    assert(v.to_multiset().len() == range_seq(n).to_multiset().len());
    assert forall|i: int| 0 <= i < v.len() implies v[i] < n by {
        assert(v.contains(v[i]));
        assert(range_seq(n).to_multiset().count(v[i]) > 0);
        let j = choose|j: int| 0 <= j < range_seq(n).len() && range_seq(n)[j] == v[i];
        assert(range_seq(n)[j] == j as u32);
    }
}

/// Adding two shuffles of `0..n` element by element gives sums of at most
/// `2 * (n - 1)`; for the benchmark's length no sum overflows a `u32`.
pub proof fn lemma_shuffled_sums_fit(a: Seq<u32>, b: Seq<u32>, n: nat)
    requires
        is_shuffled_range(a, n),
        is_shuffled_range(b, n),
        n <= u32::MAX + 1,
    ensures
        a.len() == n,
        b.len() == n,
        forall|i: int| 0 <= i < a.len() ==> a[i] + b[i] <= 2 * (n - 1),
        n <= VECADD_LEN ==> forall|i: int| 0 <= i < a.len() ==> a[i] + b[i] <= u32::MAX,
{
    lemma_shuffled_range_bounded(a, n);
    lemma_shuffled_range_bounded(b, n);
}

/// The CPU side of the benchmark: `c[i] = a[i] + b[i]` for every index.
pub fn cpu_vecadd(a: &Vec<u32>, b: &Vec<u32>) -> (c: Vec<u32>)
    requires
        a@.len() == b@.len(),
        forall|i: int| 0 <= i < a@.len() ==> a@[i] + b@[i] <= u32::MAX,
    ensures
        c@.len() == a@.len(),
        forall|i: int| 0 <= i < c@.len() ==> c@[i] == elementwise_sum(a@, b@)[i],
        forall|i: int| 0 <= i < c@.len() ==> #[trigger] c@[i] == a@[i] + b@[i],
{
    let mut c: Vec<u32> = Vec::with_capacity(a.len());
    let mut i: usize = 0;
    while i < a.len()
        invariant
            i <= a@.len(),
            a@.len() == b@.len(),
            forall|k: int| 0 <= k < a@.len() ==> a@[k] + b@[k] <= u32::MAX,
            c@.len() == i,
            forall|k: int| 0 <= k < i ==> c@[k] == a@[k] + b@[k],
        decreases a@.len() - i,
    {
        c.push(a[i] + b[i]);
        i = i + 1;
    }
    c
}

/// The first `PREVIEW_LEN` elements, which a run reports.
pub fn preview(v: &Vec<u32>) -> (p: Vec<u32>)
    requires
        v@.len() >= PREVIEW_LEN,
    ensures
        p@ == v@.subrange(0, PREVIEW_LEN as int),
{
    let mut p: Vec<u32> = Vec::new();
    let mut i: usize = 0;
    while i < PREVIEW_LEN
        invariant
            i <= PREVIEW_LEN,
            v@.len() >= PREVIEW_LEN,
            p@ == v@.subrange(0, i as int),
        decreases PREVIEW_LEN - i,
    {
        p.push(v[i]);
        i = i + 1;
    }
    p
}

/// An operand of `len` copies of `value`.
pub fn constant_input(value: u32, len: usize) -> (v: Vec<u32>)
    ensures
        v@ == Seq::new(len as nat, |i: int| value),
{
    let mut v: Vec<u32> = Vec::new();
    let mut i: usize = 0;
    while i < len
        invariant
            i <= len,
            v@ == Seq::new(i as nat, |k: int| value),
        decreases len - i,
    {
        v.push(value);
        i = i + 1;
    }
    v
}

} // verus!
