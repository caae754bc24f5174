use crate::ket::GaussianInt;
use crate::quantum_position::{lemma_lowest, lemma_lowest_valid_entries, PositionModel, QuantumPosition};
use vstd::arithmetic::power2::{lemma2_to64, lemma_pow2_unfold};
use vstd::prelude::*;

verus! {

/// The operators of the catalogue of unitary transforms.
#[derive(Clone, Copy, Debug, PartialEq, Eq, Structural)]
pub enum QuantumOperator {
    /// Swaps the amplitudes: `[[0, 1], [1, 0]]`.
    NOT,
    /// Rotation by π about the Y axis: `[[0, −i], [i, 0]]`.
    ROTATE,
    /// Flips the phase of |1⟩: `[[1, 0], [0, −1]]`.
    PHASE,
    /// The Hadamard transform: `(1/√2)·[[1, 1], [1, −1]]`.
    SUPERPOSITION,
}

/// A 2×2 unitary matrix, held as two rows; each row is a position whose two
/// amplitudes are the row's entries.
#[derive(Clone, Copy, Debug)]
pub struct QuantumGate {
    pub operator: QuantumOperator,
    pub transform: [QuantumPosition; 2],
}

/// The model of the first row of the matrix of `op`.
pub open spec fn first_row(op: QuantumOperator) -> PositionModel {
    match op {
        QuantumOperator::NOT => PositionModel { a: 0, b: 0, c: 1, d: 0, scale: 0 },
        QuantumOperator::ROTATE => PositionModel { a: 0, b: 0, c: 0, d: -1, scale: 0 },
        QuantumOperator::PHASE => PositionModel { a: 1, b: 0, c: 0, d: 0, scale: 0 },
        QuantumOperator::SUPERPOSITION => PositionModel { a: 1, b: 0, c: 1, d: 0, scale: 1 },
    }
}

/// The model of the second row of the matrix of `op`.
pub open spec fn second_row(op: QuantumOperator) -> PositionModel {
    match op {
        QuantumOperator::NOT => PositionModel { a: 1, b: 0, c: 0, d: 0, scale: 0 },
        QuantumOperator::ROTATE => PositionModel { a: 0, b: 1, c: 0, d: 0, scale: 0 },
        QuantumOperator::PHASE => PositionModel { a: 0, b: 0, c: -1, d: 0, scale: 0 },
        QuantumOperator::SUPERPOSITION => PositionModel { a: 1, b: 0, c: -1, d: 0, scale: 1 },
    }
}

/// The real part of `row · (α, β)`, times the denominators.
pub open spec fn row_re(row: PositionModel, p: PositionModel) -> int {
    row.a * p.a - row.b * p.b + row.c * p.c - row.d * p.d
}

/// The imaginary part of `row · (α, β)`, times the denominators.
pub open spec fn row_im(row: PositionModel, p: PositionModel) -> int {
    row.a * p.b + row.b * p.a + row.c * p.d + row.d * p.c
}

/// The matrix with rows `r0`, `r1` times the column `(α, β)` of `p`.
pub open spec fn mat_vec(r0: PositionModel, r1: PositionModel, p: PositionModel) -> PositionModel {
    PositionModel {
        a: row_re(r0, p),
        b: row_im(r0, p),
        c: row_re(r1, p),
        d: row_im(r1, p),
        scale: r0.scale + p.scale,
    }
}

/// What the matrix of `op` does to `(α, β)`, written out.
pub open spec fn effect(op: QuantumOperator, p: PositionModel) -> PositionModel {
    match op {
        QuantumOperator::NOT => PositionModel { a: p.c, b: p.d, c: p.a, d: p.b, scale: p.scale },
        QuantumOperator::ROTATE => PositionModel {
            a: p.d,
            b: -p.c,
            c: -p.b,
            d: p.a,
            scale: p.scale,
        },
        QuantumOperator::PHASE => PositionModel { a: p.a, b: p.b, c: -p.c, d: -p.d, scale: p.scale },
        QuantumOperator::SUPERPOSITION => PositionModel {
            a: p.a + p.c,
            b: p.b + p.d,
            c: p.a - p.c,
            d: p.b - p.d,
            scale: p.scale + 1,
        },
    }
}

/// A row with the entries `(x + y·i, z + w·i)` times the column of `p`.
proof fn lemma_row_entries(row: PositionModel, p: PositionModel, x: int, y: int, z: int, w: int)
    by (nonlinear_arith)
    requires
        row.a == x,
        row.b == y,
        row.c == z,
        row.d == w,
    ensures
        row_re(row, p) == x * p.a - y * p.b + z * p.c - w * p.d,
        row_im(row, p) == x * p.b + y * p.a + z * p.d + w * p.c,
{
}

/// The matrix of each operator does what `effect` says: `NOT` swaps, `ROTATE`
/// maps `(α, β)` to `(−iβ, iα)`, `PHASE` to `(α, −β)`, `SUPERPOSITION` to
/// `((α + β)/√2, (α − β)/√2)`.
pub proof fn lemma_matrix_effect(op: QuantumOperator, p: PositionModel)
    ensures
        mat_vec(first_row(op), second_row(op), p) == effect(op, p),
{
    let r0 = first_row(op);
    let r1 = second_row(op);
    match op {
        QuantumOperator::NOT => {
            lemma_row_entries(r0, p, 0, 0, 1, 0);
            lemma_row_entries(r1, p, 1, 0, 0, 0);
        },
        QuantumOperator::ROTATE => {
            lemma_row_entries(r0, p, 0, 0, 0, -1);
            lemma_row_entries(r1, p, 0, 1, 0, 0);
        },
        QuantumOperator::PHASE => {
            lemma_row_entries(r0, p, 1, 0, 0, 0);
            lemma_row_entries(r1, p, 0, 0, -1, 0);
        },
        QuantumOperator::SUPERPOSITION => {
            lemma_row_entries(r0, p, 1, 0, 1, 0);
            lemma_row_entries(r1, p, 1, 0, -1, 0);
        },
    }
}

/// The real part of the Hermitian inner product `r0·conj(r1)`, times the
/// denominators.
pub open spec fn inner_re(r0: PositionModel, r1: PositionModel) -> int {
    r0.a * r1.a + r0.b * r1.b + r0.c * r1.c + r0.d * r1.d
}

/// The imaginary part of the Hermitian inner product `r0·conj(r1)`, times the
/// denominators.
pub open spec fn inner_im(r0: PositionModel, r1: PositionModel) -> int {
    r0.b * r1.a - r0.a * r1.b + r0.d * r1.c - r0.c * r1.d
}

/// Two rows with the given entries: their norms and inner product.
proof fn lemma_row_pair(
    r0: PositionModel,
    r1: PositionModel,
    e0: (int, int, int, int),
    e1: (int, int, int, int),
)
    by (nonlinear_arith)
    requires
        r0.a == e0.0 && r0.b == e0.1 && r0.c == e0.2 && r0.d == e0.3,
        r1.a == e1.0 && r1.b == e1.1 && r1.c == e1.2 && r1.d == e1.3,
    ensures
        r0.total() == e0.0 * e0.0 + e0.1 * e0.1 + e0.2 * e0.2 + e0.3 * e0.3,
        r1.total() == e1.0 * e1.0 + e1.1 * e1.1 + e1.2 * e1.2 + e1.3 * e1.3,
        inner_re(r0, r1) == e0.0 * e1.0 + e0.1 * e1.1 + e0.2 * e1.2 + e0.3 * e1.3,
        inner_im(r0, r1) == e0.1 * e1.0 - e0.0 * e1.1 + e0.3 * e1.2 - e0.2 * e1.3,
{
}

/// Every matrix of the catalogue is unitary: both rows have norm 1 and they
/// are orthogonal.
pub proof fn lemma_rows_unitary(op: QuantumOperator)
    ensures
        first_row(op).is_valid(),
        second_row(op).is_valid(),
        first_row(op).scale == second_row(op).scale,
        inner_re(first_row(op), second_row(op)) == 0,
        inner_im(first_row(op), second_row(op)) == 0,
{
    lemma2_to64();
    let (r0, r1) = (first_row(op), second_row(op));
    match op {
        QuantumOperator::NOT => lemma_row_pair(r0, r1, (0, 0, 1, 0), (1, 0, 0, 0)),
        QuantumOperator::ROTATE => lemma_row_pair(r0, r1, (0, 0, 0, -1), (0, 1, 0, 0)),
        QuantumOperator::PHASE => lemma_row_pair(r0, r1, (1, 0, 0, 0), (0, 0, -1, 0)),
        QuantumOperator::SUPERPOSITION => lemma_row_pair(r0, r1, (1, 0, 1, 0), (1, 0, -1, 0)),
    }
}

/// Every transform of the catalogue keeps `|α|² + |β|² = 1`.
pub proof fn lemma_effect_unitary(op: QuantumOperator, p: PositionModel)
    requires
        p.is_valid(),
    ensures
        effect(op, p).is_valid(),
{
    let (a, b, c, d) = (p.a, p.b, p.c, p.d);
    match op {
        QuantumOperator::SUPERPOSITION => {
            assert((a + c) * (a + c) + (b + d) * (b + d) + (a - c) * (a - c) + (b - d) * (b - d) == 2
                * (a * a + b * b + c * c + d * d)) by (nonlinear_arith);
            lemma_pow2_unfold(p.scale + 1);
        },
        _ => {
            assert((-c) * (-c) == c * c && (-d) * (-d) == d * d && (-b) * (-b) == b * b)
                by (nonlinear_arith);
        },
    }
}

proof fn lemma_small_product(x: int, y: int)
    by (nonlinear_arith)
    requires
        -1 <= x <= 1,
        -2 <= y <= 2,
    ensures
        -2 <= x * y <= 2,
{
}

/// A row of a catalogue matrix times a column whose numerators lie in `[−2, 2]`.
fn row_times(row: &QuantumPosition, p: &QuantumPosition) -> (r: GaussianInt)
    requires
        -1 <= row.initial_position.re <= 1,
        -1 <= row.initial_position.im <= 1,
        -1 <= row.possible_position.re <= 1,
        -1 <= row.possible_position.im <= 1,
        -2 <= p.initial_position.re <= 2,
        -2 <= p.initial_position.im <= 2,
        -2 <= p.possible_position.re <= 2,
        -2 <= p.possible_position.im <= 2,
    ensures
        r.re == row_re(row@, p@),
        r.im == row_im(row@, p@),
{
    let x = row.initial_position.re;
    let y = row.initial_position.im;
    let z = row.possible_position.re;
    let w = row.possible_position.im;
    let a = p.initial_position.re;
    let b = p.initial_position.im;
    let c = p.possible_position.re;
    let d = p.possible_position.im;
    proof {
        lemma_small_product(x as int, a as int);
        lemma_small_product(x as int, b as int);
        lemma_small_product(y as int, a as int);
        lemma_small_product(y as int, b as int);
        lemma_small_product(z as int, c as int);
        lemma_small_product(z as int, d as int);
        lemma_small_product(w as int, c as int);
        lemma_small_product(w as int, d as int);
    }
    GaussianInt { re: x * a - y * b + z * c - w * d, im: x * b + y * a + z * d + w * c }
}

impl QuantumGate {
    /// The rows are those of the operator's matrix.
    pub open spec fn wf(&self) -> bool {
        &&& self.transform@[0]@ == first_row(self.operator)
        &&& self.transform@[1]@ == second_row(self.operator)
    }

    /// The catalogue's transform for `operator`.
    pub fn new(operator: QuantumOperator) -> (r: QuantumGate)
        ensures
            r.operator == operator,
            r.wf(),
    {
        let transform = match operator {
            QuantumOperator::NOT => [QuantumPosition::one(), QuantumPosition::zero()],
            QuantumOperator::ROTATE => [
                QuantumPosition::back_quarter_turn(),
                QuantumPosition::quarter_turn(),
            ],
            QuantumOperator::PHASE => [QuantumPosition::zero(), QuantumPosition::flip()],
            QuantumOperator::SUPERPOSITION => {
                let factor = GaussianInt::new(1, 0);
                let negated = GaussianInt::new(-1, 0);
                [
                    QuantumPosition::new_scaled(factor, factor, 1),
                    QuantumPosition::new_scaled(factor, negated, 1),
                ]
            },
        };
        QuantumGate { operator, transform }
    }

    /// The transform applied to `p`: the matrix times the column `(α, β)` of `p`,
    /// in lowest terms.
    pub fn apply_to(&self, p: &QuantumPosition) -> (r: QuantumPosition)
        requires
            self.wf(),
            p@.is_valid(),
        ensures
            r@ == mat_vec(self.transform@[0]@, self.transform@[1]@, p@.lowest()).lowest(),
            r@ == effect(self.operator, p@.lowest()).lowest(),
            r@.is_valid(),
            r@.is_lowest(),
    {
        let q = p.lowest_terms();
        proof {
            lemma_lowest(p@);
            lemma_lowest_valid_entries(q@);
            lemma_matrix_effect(self.operator, q@);
            lemma_effect_unitary(self.operator, q@);
        }
        let first = &self.transform[0];
        let second = &self.transform[1];
        let column = QuantumPosition {
            initial_position: row_times(first, &q),
            possible_position: row_times(second, &q),
            scale: first.scale + q.scale,
        };
        proof {
            lemma_lowest(column@);
        }
        column.lowest_terms()
    }
}

} // verus!
