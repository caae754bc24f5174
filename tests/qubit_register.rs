use rquant::quantum_gate::{QuantumGate, QuantumOperator};
use rquant::qubit::Qubit;
use rquant::qubit_register::{QubitRegister, RegisterError};

#[test]
fn new_shouldcreateblankregister_withzeroqubits() {
    let qubit_register = QubitRegister::new(0);

    assert_eq!(0, qubit_register.len());
}

#[test]
fn new_shouldcreateregister_withmultiplequbits() {
    let qubit_register = QubitRegister::new(5);

    assert!(!qubit_register.is_empty());
}

#[test]
fn len_shouldreturnzero_withoutqubits() {
    let qubit_register = QubitRegister { qubits: vec![] };

    assert_eq!(0, qubit_register.len());
}

#[test]
fn len_shouldreturnqubitamount() {
    let num_qubits = 5;
    let qubit_register = QubitRegister::new(num_qubits);

    assert_eq!(num_qubits, qubit_register.len());
}

#[test]
fn isempty_shouldreturntrue_foremptyregister() {
    let qubit_register = QubitRegister { qubits: vec![] };

    assert!(qubit_register.is_empty());
}

#[test]
fn get_shouldreturnnone_withinvalidindex() {
    let qubit_register = QubitRegister::new(0);

    assert!(qubit_register.get(999).is_none());
}

#[test]
fn get_shouldreturnsome_withvalidindex() {
    let qubit_register = QubitRegister::new(5);

    assert!(qubit_register.get(0).is_some());
}

#[test]
fn getmut_shouldreturnnone_withinvalidindex() {
    let mut qubit_register = QubitRegister::new(0);

    assert!(qubit_register.get_mut(999).is_none());
}

#[test]
fn getmut_shouldreturnsome_withvalidindex() {
    let mut qubit_register = QubitRegister::new(5);

    assert!(qubit_register.get_mut(0).is_some());
}

#[test]
fn getmut_changes_the_register() {
    let mut qubit_register = QubitRegister::new(3);

    *qubit_register.get_mut(2).unwrap() = Qubit::one();

    assert_eq!(Some(&Qubit::one()), qubit_register.get(2));
    assert_eq!(Some(&Qubit::zero()), qubit_register.get(1));
}

#[test]
fn applysinglequbitgate_shouldmodifyregister_withvalidgate() {
    let expected = Qubit::zero()
        .apply_gate(&QuantumGate::new(QuantumOperator::SUPERPOSITION))
        .initial_position();
    let qubit_to_modify_index = 0;
    let mut qubit_register = QubitRegister::new(10);

    let result = qubit_register
        .apply_single_qubit_gate(&QuantumGate::new(QuantumOperator::SUPERPOSITION), qubit_to_modify_index);
    let modified_qubit = qubit_register
        .get_mut(qubit_to_modify_index)
        .expect("Unable to get superpositioned qubit in register.");

    assert_eq!(expected, modified_qubit.initial_position());
    assert_eq!(Ok(()), result);
}

#[test]
fn applysinglequbitgate_changes_only_the_target() {
    let mut register = QubitRegister::new(5);

    let result = register.apply_single_qubit_gate(&QuantumGate::new(QuantumOperator::NOT), 1);

    assert_eq!(Ok(()), result);
    assert_eq!(Some(&Qubit::one()), register.get(1));
    for i in [0, 2, 3, 4] {
        assert_eq!(Some(&Qubit::zero()), register.get(i));
    }
}

#[test]
fn applysinglequbitgate_reports_invalid_index() {
    let mut register = QubitRegister::new(5);

    let result = register.apply_single_qubit_gate(&QuantumGate::new(QuantumOperator::NOT), 999);

    assert_eq!(Err(RegisterError::InvalidQubitIndex { index: 999, len: 5 }), result);
    assert_eq!(QubitRegister::new(5), register);
}
