use crate::quantum_gate::QuantumGate;
use crate::quantum_position::PositionModel;
use crate::qubit::{gate_applied, Qubit};
use vstd::prelude::*;

verus! {

/// Why a register operation was not carried out.
#[derive(Clone, Copy, Debug, PartialEq, Eq, Structural)]
pub enum RegisterError {
    /// `index` names no qubit of a register of `len` qubits.
    InvalidQubitIndex { index: usize, len: usize },
}

/// A fixed-size sequence of qubits that evolve independently of each other.
#[derive(Clone, Debug, PartialEq)]
pub struct QubitRegister {
    pub qubits: Vec<Qubit>,
}

impl QubitRegister {
    /// Every qubit is well formed.
    pub open spec fn wf(&self) -> bool {
        forall|i: int| 0 <= i < self.qubits@.len() ==> (#[trigger] self.qubits@[i]).wf()
    }

    /// A register of `num_qubits` qubits, each at |0⟩.
    pub fn new(num_qubits: usize) -> (r: QubitRegister)
        ensures
            r.qubits@.len() == num_qubits,
            r.wf(),
            forall|i: int|
                0 <= i < num_qubits ==> {
                    &&& (#[trigger] r.qubits@[i]).positions@.len() == 1
                    &&& r.qubits@[i].current()@ == (PositionModel {
                        a: 1,
                        b: 0,
                        c: 0,
                        d: 0,
                        scale: 0,
                    })
                },
    {
        let mut qubits: Vec<Qubit> = Vec::new();
        let mut n: usize = 0;
        while n < num_qubits
            invariant
                n <= num_qubits,
                qubits@.len() == n,
                forall|i: int|
                    0 <= i < n ==> {
                        &&& (#[trigger] qubits@[i]).wf()
                        &&& qubits@[i].positions@.len() == 1
                        &&& qubits@[i].current()@ == (PositionModel {
                            a: 1,
                            b: 0,
                            c: 0,
                            d: 0,
                            scale: 0,
                        })
                    },
            decreases num_qubits - n,
        {
            qubits.push(Qubit::zero());
            n = n + 1;
        }
        QubitRegister { qubits }
    }

    /// The number of qubits.
    pub fn len(&self) -> (r: usize)
        ensures
            r == self.qubits@.len(),
    {
        self.qubits.len()
    }

    /// Whether the register holds no qubit.
    pub fn is_empty(&self) -> (r: bool)
        ensures
            r == (self.qubits@.len() == 0),
    {
        self.qubits.len() == 0
    }

    /// The qubit at `index`, or `None` past the end.
    pub fn get(&self, index: usize) -> (r: Option<&Qubit>)
        ensures
            index < self.qubits@.len() ==> r == Some(&self.qubits@[index as int]),
            index >= self.qubits@.len() ==> r is None,
    {
        if index < self.qubits.len() {
            Some(&self.qubits[index])
        } else {
            None
        }
    }

    /// The qubit at `index` for change, or `None` past the end.
    pub fn get_mut(&mut self, index: usize) -> (r: Option<&mut Qubit>)
        ensures
            index < old(self).qubits@.len() ==> {
                &&& r is Some
                &&& *r->Some_0 == old(self).qubits@[index as int]
                &&& final(self).qubits@ == old(self).qubits@.update(
                    index as int,
                    *final(r->Some_0),
                )
            },
            index >= old(self).qubits@.len() ==> {
                &&& r is None
                &&& *final(self) == *old(self)
            },
    {
        if index < self.qubits.len() {
            Some(&mut self.qubits[index])
        } else {
            None
        }
    }

    /// Replaces the qubit at `target_qubit` by the transform applied to it; the other
    /// qubits are left as they are. An index past the end changes nothing and is
    /// reported as an error.
    pub fn apply_single_qubit_gate(&mut self, gate: &QuantumGate, target_qubit: usize) -> (r: Result<
        (),
        RegisterError,
    >)
        requires
            old(self).wf(),
            gate.wf(),
        ensures
            final(self).wf(),
            final(self).qubits@.len() == old(self).qubits@.len(),
            target_qubit < old(self).qubits@.len() ==> {
                &&& r is Ok
                &&& final(self).qubits@[target_qubit as int].positions@.len() == 1
                &&& final(self).qubits@[target_qubit as int].current()@ == gate_applied(
                    gate.operator,
                    old(self).qubits@[target_qubit as int].current()@,
                )
                &&& forall|j: int|
                    0 <= j < old(self).qubits@.len() && j != target_qubit ==> (
                    #[trigger] final(self).qubits@[j]) == old(self).qubits@[j]
            },
            target_qubit >= old(self).qubits@.len() ==> {
                &&& r == Err::<(), RegisterError>(
                    RegisterError::InvalidQubitIndex { index: target_qubit, len: old(self).qubits@.len() as usize },
                )
                &&& *final(self) == *old(self)
            },
    {
        if target_qubit < self.qubits.len() {
            let applied = self.qubits[target_qubit].apply_gate(gate);
            self.qubits.set(target_qubit, applied);
            Ok(())
        } else {
            Err(RegisterError::InvalidQubitIndex { index: target_qubit, len: self.qubits.len() })
        }
    }
}

} // verus!
