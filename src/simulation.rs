use crate::quantum_gate::{QuantumGate, QuantumOperator};
use crate::quantum_position::PositionModel;
use crate::qubit::{gate_applied, possible_outcome, Qubit};
use crate::qubit_register::QubitRegister;
use crate::random::entropy_rng;
use vstd::prelude::*;

verus! {

/// The number of trials that an `amount` asks for: none when it is not positive.
pub open spec fn trial_count(amount: int) -> int {
    if amount > 0 {
        amount
    } else {
        0
    }
}

/// The position that one trial measures: `m` through the `SUPERPOSITION` transform.
pub open spec fn superposed(m: PositionModel) -> PositionModel {
    gate_applied(QuantumOperator::SUPERPOSITION, m)
}

/// Repeated measurement of a subject after placing it in superposition.
pub trait Simulation<T> {
    /// The subject can be measured.
    spec fn ready(&self) -> bool;

    /// `outcomes` is a sequence of outcomes that `amount` trials on the subject
    /// can give.
    spec fn possible_outcomes(&self, amount: int, outcomes: Seq<bool>) -> bool;

    /// Runs `amount` trials with `rng` and returns their outcomes.
    fn simulate_superposition_with(&self, amount: i32, rng: &mut rand::rngs::StdRng) -> (r: Vec<
        bool,
    >)
        requires
            self.ready(),
        ensures
            self.possible_outcomes(amount as int, r@),
    ;

    /// Runs `amount` trials with a generator seeded from the operating system;
    /// `None` where the operating system provides no entropy.
    fn simulate_superposition(&self, amount: i32) -> (r: Option<Vec<bool>>)
        requires
            self.ready(),
        ensures
            r matches Some(outcomes) ==> self.possible_outcomes(amount as int, outcomes@),
    ;
}

impl Simulation<Qubit> for Qubit {
    open spec fn ready(&self) -> bool {
        self.wf()
    }

    /// One outcome per trial, each one that measuring the current position
    /// through `SUPERPOSITION` can give.
    open spec fn possible_outcomes(&self, amount: int, outcomes: Seq<bool>) -> bool {
        &&& outcomes.len() == trial_count(amount)
        &&& forall|i: int|
            0 <= i < outcomes.len() ==> possible_outcome(
                superposed(self.current()@),
                #[trigger] outcomes[i],
            )
    }

    fn simulate_superposition_with(&self, amount: i32, rng: &mut rand::rngs::StdRng) -> (r: Vec<
        bool,
    >) {
        let gate = QuantumGate::new(QuantumOperator::SUPERPOSITION);
        let mut outcomes: Vec<bool> = Vec::new();
        let mut n: i32 = 0;
        while n < amount
            invariant
                self.wf(),
                gate.wf(),
                gate.operator == QuantumOperator::SUPERPOSITION,
                0 <= n,
                amount > 0 ==> n <= amount,
                amount <= 0 ==> n == 0,
                outcomes@.len() == n,
                forall|i: int|
                    0 <= i < outcomes@.len() ==> possible_outcome(
                        superposed(self.current()@),
                        #[trigger] outcomes@[i],
                    ),
            decreases amount - n,
        {
            let outcome = self.apply_gate(&gate).measure_with(rng);
            outcomes.push(outcome);
            n = n + 1;
        }
        outcomes
    }

    fn simulate_superposition(&self, amount: i32) -> (r: Option<Vec<bool>>) {
        match entropy_rng() {
            Some(mut rng) => Some(self.simulate_superposition_with(amount, &mut rng)),
            None => None,
        }
    }
}

impl Simulation<QubitRegister> for QubitRegister {
    open spec fn ready(&self) -> bool {
        self.wf()
    }

    /// The outcomes of qubit 0's trials, then those of qubit 1, and so on: the
    /// outcome of trial `j` of qubit `i` stands at `i · amount + j`.
    open spec fn possible_outcomes(&self, amount: int, outcomes: Seq<bool>) -> bool {
        &&& outcomes.len() == self.qubits@.len() * trial_count(amount)
        &&& forall|i: int, j: int|
            0 <= i < self.qubits@.len() && 0 <= j < trial_count(amount) ==> possible_outcome(
                superposed(self.qubits@[i].current()@),
                #[trigger] outcomes[i * trial_count(amount) + j],
            )
    }

    fn simulate_superposition_with(&self, amount: i32, rng: &mut rand::rngs::StdRng) -> (r: Vec<
        bool,
    >) {
        let ghost count = trial_count(amount as int);
        let mut outcomes: Vec<bool> = Vec::new();
        let mut q: usize = 0;
        while q < self.qubits.len()
            invariant
                self.wf(),
                q <= self.qubits@.len(),
                outcomes@.len() == q * count,
                count == trial_count(amount as int),
                forall|i: int, j: int|
                    0 <= i < q && 0 <= j < count ==> possible_outcome(
                        superposed(self.qubits@[i].current()@),
                        #[trigger] outcomes@[i * count + j],
                    ),
            decreases self.qubits@.len() - q,
        {
            let trials = self.qubits[q].simulate_superposition_with(amount, rng);
            let ghost before = outcomes@;
            let mut t: usize = 0;
            while t < trials.len()
                invariant
                    t <= trials@.len(),
                    trials@.len() == count,
                    outcomes@.len() == q * count + t,
                    outcomes@.subrange(0, q * count) == before,
                    forall|j: int|
                        0 <= j < t ==> #[trigger] outcomes@[q * count + j] == trials@[j],
                decreases trials@.len() - t,
            {
                outcomes.push(trials[t]);
                t = t + 1;
            }
            proof {
                assert forall|i: int, j: int|
                    0 <= i < q + 1 && 0 <= j < count implies possible_outcome(
                    superposed(self.qubits@[i].current()@),
                    #[trigger] outcomes@[i * count + j],
                ) by {
                    if i < q {
                        assert(i * count + j < q * count) by (nonlinear_arith)
                            requires
                                0 <= i < q,
                                0 <= j < count,
                        ;
                        assert(0 <= i * count + j) by (nonlinear_arith)
                            requires
                                0 <= i,
                                0 <= j,
                                0 <= count,
                        ;
                        assert(outcomes@[i * count + j] == before[i * count + j]);
                    } else {
                        assert(i * count + j == q * count + j);
                        assert(outcomes@[q * count + j] == trials@[j]);
                    }
                }
                assert((q + 1) * count == q * count + count) by (nonlinear_arith);
            }
            q = q + 1;
        }
        outcomes
    }

    fn simulate_superposition(&self, amount: i32) -> (r: Option<Vec<bool>>) {
        match entropy_rng() {
            Some(mut rng) => Some(self.simulate_superposition_with(amount, &mut rng)),
            None => None,
        }
    }
}

} // verus!
