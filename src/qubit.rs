use crate::ket::GaussianInt;
use crate::quantum_gate::{effect, mat_vec, QuantumGate, QuantumOperator};
use crate::quantum_position::{lemma_lowest, PositionModel, QuantumPosition};
use crate::random::{entropy_rng, sample_ratio};
use vstd::prelude::*;

verus! {

/// A qubit: its history of positions. The current position is the first one;
/// positions appended later are kept as history and are never read as current.
#[derive(Clone, Debug, PartialEq)]
pub struct Qubit {
    pub positions: Vec<QuantumPosition>,
}

/// The position that the matrix of `op` gives from `m`, in lowest terms.
pub open spec fn gate_applied(op: QuantumOperator, m: PositionModel) -> PositionModel {
    effect(op, m.lowest()).lowest()
}

/// Whether measuring the position `m` can give `outcome`: `true` needs `α ≠ 0`,
/// `false` needs `β ≠ 0`.
pub open spec fn possible_outcome(m: PositionModel, outcome: bool) -> bool {
    if outcome {
        !m.initial_is_zero()
    } else {
        !m.possible_is_zero()
    }
}

impl Qubit {
    /// At least one position, and the current one is normalized.
    pub open spec fn wf(&self) -> bool {
        &&& self.positions@.len() > 0
        &&& self.positions@[0]@.is_valid()
    }

    /// The current position: the first of the history.
    pub open spec fn current(&self) -> QuantumPosition {
        self.positions@[0]
    }

    /// A qubit at `position`, which must be normalized. The position is stored
    /// in lowest terms, so that equal states give equal qubits.
    pub fn new(position: QuantumPosition) -> (r: Qubit)
        requires
            position@.is_valid(),
        ensures
            r.positions@.len() == 1,
            r.current()@ == position@.lowest(),
            r.current()@.is_lowest(),
            r.wf(),
    {
        proof {
            lemma_lowest(position@);
        }
        Qubit { positions: vec![position.lowest_terms()] }
    }

    /// The qubit |0⟩.
    pub fn zero() -> (r: Qubit)
        ensures
            r.positions@.len() == 1,
            r.current()@ == (PositionModel { a: 1, b: 0, c: 0, d: 0, scale: 0 }),
            r.wf(),
    {
        Qubit::new(QuantumPosition::zero())
    }

    /// The qubit |1⟩.
    pub fn one() -> (r: Qubit)
        ensures
            r.positions@.len() == 1,
            r.current()@ == (PositionModel { a: 0, b: 0, c: 1, d: 0, scale: 0 }),
            r.wf(),
    {
        Qubit::new(QuantumPosition::one())
    }

    /// The qubit at `(0, −1)`.
    pub fn flip() -> (r: Qubit)
        ensures
            r.positions@.len() == 1,
            r.current()@ == (PositionModel { a: 0, b: 0, c: -1, d: 0, scale: 0 }),
            r.wf(),
    {
        Qubit::new(QuantumPosition::flip())
    }

    /// The qubit at `(i, 0)`.
    pub fn quarter_turn() -> (r: Qubit)
        ensures
            r.positions@.len() == 1,
            r.current()@ == (PositionModel { a: 0, b: 1, c: 0, d: 0, scale: 0 }),
            r.wf(),
    {
        Qubit::new(QuantumPosition::quarter_turn())
    }

    /// The qubit at `(0, −i)`.
    pub fn back_quarter_turn() -> (r: Qubit)
        ensures
            r.positions@.len() == 1,
            r.current()@ == (PositionModel { a: 0, b: 0, c: 0, d: -1, scale: 0 }),
            r.wf(),
    {
        Qubit::new(QuantumPosition::back_quarter_turn())
    }

    /// Appends `new_position` to the history; the current position stays the first.
    pub fn update(&mut self, new_position: QuantumPosition)
        ensures
            final(self).positions@ == old(self).positions@.push(new_position),
    {
        self.positions.push(new_position);
    }

    /// The current position.
    pub fn position(&self) -> (r: QuantumPosition)
        requires
            self.positions@.len() > 0,
        ensures
            r == self.current(),
    {
        self.positions[0]
    }

    /// The numerator of the current `α`.
    pub fn initial_position(&self) -> (r: GaussianInt)
        requires
            self.positions@.len() > 0,
        ensures
            r == self.current().initial_position,
    {
        self.positions[0].initial_position
    }

    /// The numerator of the current `β`.
    pub fn possible_position(&self) -> (r: GaussianInt)
        requires
            self.positions@.len() > 0,
        ensures
            r == self.current().possible_position,
    {
        self.positions[0].possible_position
    }

    /// A new qubit at the transform's matrix times the current position; `self` is
    /// left as it is.
    pub fn apply_gate(&self, gate: &QuantumGate) -> (r: Qubit)
        requires
            self.wf(),
            gate.wf(),
        ensures
            r.positions@.len() == 1,
            r.current()@ == mat_vec(
                gate.transform@[0]@,
                gate.transform@[1]@,
                self.current()@.lowest(),
            ).lowest(),
            r.current()@ == gate_applied(gate.operator, self.current()@),
            r.current()@.is_lowest(),
            r.wf(),
    {
        let position = gate.apply_to(&self.positions[0]);
        proof {
            lemma_lowest(position@);
        }
        Qubit::new(position)
    }

    /// The qubit through the `NOT` transform.
    pub fn not(self) -> (r: Qubit)
        requires
            self.wf(),
        ensures
            r.positions@.len() == 1,
            r.current()@ == gate_applied(QuantumOperator::NOT, self.current()@),
            r.wf(),
    {
        self.apply_gate(&QuantumGate::new(QuantumOperator::NOT))
    }

    /// Measures the current position with `rng`: `true` with probability `|α|²`.
    pub fn measure_with(&self, rng: &mut rand::rngs::StdRng) -> (r: bool)
        requires
            self.wf(),
        ensures
            possible_outcome(self.current()@, r),
    {
        let (numerator, denominator) = self.positions[0].measurement_ratio();
        sample_ratio(rng, numerator, denominator)
    }

    /// Measures the current position with a generator seeded from the
    /// operating system: `true` with probability `|α|²`; `None` where the
    /// operating system provides no entropy.
    pub fn measure(&self) -> (r: Option<bool>)
        requires
            self.wf(),
        ensures
            r matches Some(outcome) ==> possible_outcome(self.current()@, outcome),
    {
        match entropy_rng() {
            Some(mut rng) => Some(self.measure_with(&mut rng)),
            None => None,
        }
    }
}

/// `NOT` undoes itself: through `NOT` twice, a valid position comes back to
/// itself in lowest terms, and to itself exactly when it was in lowest terms.
pub proof fn lemma_not_self_inverse(m: PositionModel)
    requires
        m.is_valid(),
    ensures
        gate_applied(QuantumOperator::NOT, gate_applied(QuantumOperator::NOT, m)) == m.lowest(),
        m.is_lowest() ==> gate_applied(
            QuantumOperator::NOT,
            gate_applied(QuantumOperator::NOT, m),
        ) == m,
{
    let l = m.lowest();
    lemma_lowest(m);
    let once = effect(QuantumOperator::NOT, l);
    lemma_lowest(once);
    lemma_lowest(l);
    let twice = effect(QuantumOperator::NOT, once);
    assert(twice == l);
}

} // verus!
