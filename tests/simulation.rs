use rand::rngs::StdRng;
use rand::SeedableRng;
use rquant::quantum_gate::{QuantumGate, QuantumOperator};
use rquant::qubit::Qubit;
use rquant::qubit_register::QubitRegister;
use rquant::report::{percent_of, SimulationReport};
use rquant::simulation::Simulation;

#[test]
fn simulate_zero_tends_to_half_true() {
    let mut rng = StdRng::seed_from_u64(2024);
    let outcomes = Qubit::zero().simulate_superposition_with(20000, &mut rng);
    assert_eq!(20000, outcomes.len());
    let trues = outcomes.iter().filter(|o| **o).count();
    assert!(trues > 9400 && trues < 10600, "{trues}");
}

#[test]
fn simulate_without_seed_gives_amount_outcomes() {
    let outcomes = Qubit::one().simulate_superposition(100).expect("entropy");
    assert_eq!(100, outcomes.len());
}

#[test]
fn simulate_nonpositive_amount_gives_nothing() {
    assert!(Qubit::zero().simulate_superposition(0).expect("entropy").is_empty());
    assert!(Qubit::zero().simulate_superposition(-3).expect("entropy").is_empty());
    assert!(QubitRegister::new(4).simulate_superposition(-3).expect("entropy").is_empty());
}

#[test]
fn simulate_measures_superposed_copy_only() {
    // through SUPERPOSITION, (1/√2)(1, 1) goes back to |0⟩: always true
    let superposed = Qubit::zero().apply_gate(&QuantumGate::new(QuantumOperator::SUPERPOSITION));
    let mut rng = StdRng::seed_from_u64(5);
    let outcomes = superposed.simulate_superposition_with(300, &mut rng);
    assert!(outcomes.iter().all(|o| *o));
    // and (1/√2)(1, −1) goes to |1⟩: always false
    let minus = Qubit::one().apply_gate(&QuantumGate::new(QuantumOperator::SUPERPOSITION));
    let outcomes = minus.simulate_superposition_with(300, &mut rng);
    assert!(outcomes.iter().all(|o| !*o));
    assert_eq!(Qubit::one().apply_gate(&QuantumGate::new(QuantumOperator::SUPERPOSITION)), minus);
}

#[test]
fn simulate_register_orders_by_qubit_then_trial() {
    let mut register = QubitRegister::new(3);
    let hadamard = QuantumGate::new(QuantumOperator::SUPERPOSITION);
    let not = QuantumGate::new(QuantumOperator::NOT);
    // qubit 0: H|0⟩, certain true; qubit 1: H|1⟩, certain false; qubit 2: |0⟩
    register.apply_single_qubit_gate(&hadamard, 0).unwrap();
    register.apply_single_qubit_gate(&not, 1).unwrap();
    register.apply_single_qubit_gate(&hadamard, 1).unwrap();
    let mut rng = StdRng::seed_from_u64(9);
    let outcomes = register.simulate_superposition_with(50, &mut rng);
    assert_eq!(150, outcomes.len());
    assert!(outcomes[0..50].iter().all(|o| *o));
    assert!(outcomes[50..100].iter().all(|o| !*o));
    let trues = outcomes[100..150].iter().filter(|o| **o).count();
    assert!(trues > 0 && trues < 50);
}

#[test]
fn simulate_register_without_seed_length() {
    let outcomes = QubitRegister::new(5).simulate_superposition(10).expect("entropy");
    assert_eq!(50, outcomes.len());
}

#[test]
fn report_counts_and_percentages() {
    let outcomes = vec![true, false, true];
    let summary = outcomes.report(Qubit::zero());
    assert_eq!(Qubit::zero(), summary.subject);
    assert_eq!(2, summary.true_count);
    assert_eq!(1, summary.false_count);
    assert_eq!(3, summary.total);
    assert_eq!(6667, summary.true_percent);
    assert_eq!(3333, summary.false_percent);
}

#[test]
fn report_of_no_outcomes_is_zero() {
    let outcomes: Vec<bool> = vec![];
    let summary = outcomes.report(QubitRegister::new(2));
    assert_eq!(0, summary.total);
    assert_eq!(0, summary.true_count);
    assert_eq!(0, summary.false_count);
    assert_eq!(0, summary.true_percent);
    assert_eq!(0, summary.false_percent);
}

#[test]
fn report_all_true() {
    let outcomes = vec![true; 8];
    let summary = outcomes.report(());
    assert_eq!(8, summary.true_count);
    assert_eq!(10000, summary.true_percent);
    assert_eq!(0, summary.false_percent);
}

#[test]
fn percent_rounds_to_nearest_hundredth() {
    assert_eq!(3333, percent_of(1, 3));
    assert_eq!(6667, percent_of(2, 3));
    assert_eq!(5000, percent_of(1, 2));
    assert_eq!(1, percent_of(1, 10000));
    assert_eq!(1, percent_of(1, 19999));
    assert_eq!(0, percent_of(1, 20001));
    assert_eq!(0, percent_of(0, 0));
    assert_eq!(10000, percent_of(usize::MAX, usize::MAX));
}
