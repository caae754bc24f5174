use rquant::ket::GaussianInt;
use rquant::quantum_gate::{QuantumGate, QuantumOperator};
use rquant::quantum_position::QuantumPosition;

#[test]
fn new_shouldmakequantumgate_withvalidoperator() {
    [
        QuantumOperator::NOT,
        QuantumOperator::PHASE,
        QuantumOperator::ROTATE,
        QuantumOperator::SUPERPOSITION,
    ]
    .iter()
    .for_each(|op| {
        let quantum_gate = QuantumGate::new(op.clone());
        assert_eq!(*op, quantum_gate.operator);
        assert!(!quantum_gate.transform.is_empty());
    });
}

#[test]
fn new_builds_the_catalogue_matrices() {
    let not = QuantumGate::new(QuantumOperator::NOT);
    assert_eq!(not.transform, [QuantumPosition::one(), QuantumPosition::zero()]);
    let rotate = QuantumGate::new(QuantumOperator::ROTATE);
    assert_eq!(rotate.transform, [QuantumPosition::back_quarter_turn(), QuantumPosition::quarter_turn()]);
    let phase = QuantumGate::new(QuantumOperator::PHASE);
    assert_eq!(phase.transform, [QuantumPosition::zero(), QuantumPosition::flip()]);
    let hadamard = QuantumGate::new(QuantumOperator::SUPERPOSITION);
    let one = GaussianInt::new(1, 0);
    assert_eq!(
        hadamard.transform,
        [QuantumPosition::new_scaled(one, one, 1), QuantumPosition::new_scaled(one, GaussianInt::new(-1, 0), 1)]
    );
}

#[test]
fn applyto_superposition_of_general_state() {
    // H (1, i)/√2 = ((1 + i)/2, (1 − i)/2)
    let p = QuantumPosition::new_scaled(GaussianInt::new(1, 0), GaussianInt::new(0, 1), 1);
    let r = QuantumGate::new(QuantumOperator::SUPERPOSITION).apply_to(&p);
    assert_eq!(r, QuantumPosition::new_scaled(GaussianInt::new(1, 1), GaussianInt::new(1, -1), 2));
}

#[test]
fn applyto_rotate_of_general_state() {
    // ROTATE (α, β) = (−iβ, iα) with α = (1 + i)/2, β = (1 − i)/2
    let p = QuantumPosition::new_scaled(GaussianInt::new(1, 1), GaussianInt::new(1, -1), 2);
    let r = QuantumGate::new(QuantumOperator::ROTATE).apply_to(&p);
    assert_eq!(r, QuantumPosition::new_scaled(GaussianInt::new(-1, -1), GaussianInt::new(-1, 1), 2));
}
