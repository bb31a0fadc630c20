use gpu_bench::batching::{
    batch_fixed_operand, batch_initial_operand, next_batch_operand, BATCH_ROUNDS,
};
use gpu_bench::riemann::{riemann_start, RIEMANN_START_BOUND};
use gpu_bench::vecadd::{
    ascending, constant_input, cpu_vecadd, preview, shuffled_range, VecAddInputs, VECADD_LEN,
};

fn sorted(v: &[u32]) -> Vec<u32> {
    let mut s = v.to_vec();
    s.sort();
    s
}

#[test]
fn ascending_counts_up_from_zero() {
    assert_eq!(ascending(5), vec![0, 1, 2, 3, 4]);
    assert_eq!(ascending(0), Vec::<u32>::new());
}

#[test]
fn shuffled_range_is_a_permutation() {
    let mut rng = rand::thread_rng();
    let v = shuffled_range(100, &mut rng);
    assert_eq!(v.len(), 100);
    assert_eq!(sorted(&v), ascending(100));
}

#[test]
fn vecadd_inputs_are_two_permutations_of_the_range() {
    let inputs = VecAddInputs::new();
    assert_eq!(inputs.a().len(), VECADD_LEN as usize);
    assert_eq!(inputs.b().len(), VECADD_LEN as usize);
    assert_eq!(sorted(inputs.a()), ascending(VECADD_LEN));
    assert_eq!(sorted(inputs.b()), ascending(VECADD_LEN));
}

#[test]
fn cpu_sum_adds_the_operands() {
    let inputs = VecAddInputs::new();
    let c = inputs.cpu_sum();
    assert_eq!(c.len(), 500);
    for i in 0..500 {
        assert_eq!(c[i], inputs.a()[i] + inputs.b()[i]);
        assert!(c[i] <= 998);
    }
}

#[test]
fn cpu_vecadd_exact_values() {
    assert_eq!(cpu_vecadd(&vec![1, 2, 3], &vec![10, 20, 30]), vec![11, 22, 33]);
    assert_eq!(cpu_vecadd(&vec![u32::MAX - 1], &vec![1]), vec![u32::MAX]);
    assert_eq!(cpu_vecadd(&vec![], &vec![]), Vec::<u32>::new());
}

#[test]
fn preview_takes_the_first_ten() {
    let v = ascending(20);
    assert_eq!(preview(&v), vec![0, 1, 2, 3, 4, 5, 6, 7, 8, 9]);
    let exact = ascending(10);
    assert_eq!(preview(&exact), exact);
}

#[test]
fn constant_input_repeats_the_value() {
    assert_eq!(constant_input(12, 4), vec![12, 12, 12, 12]);
    let big = constant_input(13, 65535);
    assert_eq!(big.len(), 65535);
    assert!(big.iter().all(|&x| x == 13));
    assert!(constant_input(7, 0).is_empty());
}

#[test]
fn riemann_start_stays_in_range() {
    for _ in 0..1000 {
        let s = riemann_start();
        assert!(0 <= s && s < RIEMANN_START_BOUND);
    }
}

#[test]
fn batching_rounds_raise_the_varying_operand() {
    assert_eq!(batch_fixed_operand(), [1, 2, 3, 4, 5]);
    let mut b = batch_initial_operand();
    assert_eq!(b, [3; 5]);
    let mut seen = Vec::new();
    for _ in 0..BATCH_ROUNDS {
        b = next_batch_operand(&b);
        seen.push(b);
    }
    assert_eq!(seen, vec![[4; 5], [5; 5], [6; 5]]);
}

#[test]
fn next_batch_operand_reads_only_the_first_element() {
    assert_eq!(next_batch_operand(&[9, 1, 2, 3, 4]), [10; 5]);
}
