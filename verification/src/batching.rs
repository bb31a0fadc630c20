//! The batching experiment: one operand stays fixed while the other is
//! rebuilt before every round from its own first element.

use vstd::prelude::*;

verus! {

/// Number of elements in each operand.
pub const BATCH_LEN: usize = 5;

/// Number of rounds submitted to the GPU.
pub const BATCH_ROUNDS: usize = 3;

/// Value held by every element of the varying operand before the first round.
pub const BATCH_INITIAL_VALUE: u32 = 3;

/// An operand whose `BATCH_LEN` elements all hold `value`.
pub open spec fn uniform_operand(value: int) -> Seq<u32> {
    Seq::new(BATCH_LEN as nat, |i: int| value as u32)
}

/// The operand of the next round: its first element plus one, everywhere.
pub open spec fn next_operand(b: Seq<u32>) -> Seq<u32> {
    uniform_operand(b[0] + 1)
}

/// The varying operand after `rounds` rebuilds of the initial one.
pub open spec fn operand_after(rounds: nat) -> Seq<u32>
    decreases rounds,
{
    if rounds == 0 {
        uniform_operand(BATCH_INITIAL_VALUE as int)
    } else {
        next_operand(operand_after((rounds - 1) as nat))
    }
}

/// The fixed operand `1, 2, 3, 4, 5`.
pub fn batch_fixed_operand() -> (a: [u32; 5])
    ensures
        a@ == seq![1u32, 2, 3, 4, 5],
{
    [1, 2, 3, 4, 5]
}

/// The varying operand before the first round.
pub fn batch_initial_operand() -> (b: [u32; 5])
    ensures
        b@ == uniform_operand(BATCH_INITIAL_VALUE as int),
{
    let b = [BATCH_INITIAL_VALUE; 5];
    assert(b@ =~= uniform_operand(BATCH_INITIAL_VALUE as int));
    b
}

/// Rebuilds the varying operand for the next round.
pub fn next_batch_operand(b: &[u32; 5]) -> (next: [u32; 5])
    requires
        b@[0] < u32::MAX,
    ensures
        next@ == next_operand(b@),
        forall|i: int| 0 <= i < BATCH_LEN ==> #[trigger] next@[i] == b@[0] + 1,
{
    let v = b[0] + 1;
    let next = [v; 5];
    assert(next@ =~= next_operand(b@));
    next
}

/// Every element of the next operand is the first element of the current
/// one plus one; the other elements play no part.
pub proof fn lemma_next_operand_from_first(b: Seq<u32>, c: Seq<u32>)
    requires
        b.len() == BATCH_LEN,
        c.len() == BATCH_LEN,
        b[0] < u32::MAX,
        c[0] == b[0],
    ensures
        next_operand(b).len() == BATCH_LEN,
        forall|i: int| 0 <= i < BATCH_LEN ==> #[trigger] next_operand(b)[i] == b[0] + 1,
        next_operand(b) == next_operand(c),
{
    assert(next_operand(b) =~= next_operand(c));
}

/// After `rounds` rebuilds every element of the varying operand holds
/// `BATCH_INITIAL_VALUE + rounds`.
pub proof fn lemma_operand_after(rounds: nat)
    requires
        BATCH_INITIAL_VALUE + rounds <= u32::MAX,
    ensures
        operand_after(rounds) == uniform_operand(BATCH_INITIAL_VALUE + rounds),
    decreases rounds,
{
    if rounds > 0 {
        lemma_operand_after((rounds - 1) as nat);
        let prev = operand_after((rounds - 1) as nat);
        assert(prev[0] == (BATCH_INITIAL_VALUE + rounds - 1) as u32);
        assert(operand_after(rounds) =~= uniform_operand(BATCH_INITIAL_VALUE + rounds));
    }
}

} // verus!
