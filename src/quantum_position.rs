use crate::ket::{ket_back_rotation, ket_flip, ket_one, ket_rotation, ket_zero, GaussianInt};
use vstd::arithmetic::power2::{
    lemma2_to64, lemma2_to64_rest, lemma_pow2_strictly_increases, lemma_pow2_unfold, pow2,
};
use vstd::prelude::*;

verus! {

/// The exact amplitudes of a position: `(a + b·i, c + d·i) / √2^scale`.
pub struct PositionModel {
    pub a: int,
    pub b: int,
    pub c: int,
    pub d: int,
    pub scale: nat,
}

impl PositionModel {
    /// `(|α|² + |β|²) · 2^scale`, a sum of four squares.
    pub open spec fn total(self) -> int {
        self.a * self.a + self.b * self.b + self.c * self.c + self.d * self.d
    }

    /// `|α|² · 2^scale`: the weight of the outcome `true` on measurement,
    /// whose probability is `initial_weight / 2^scale`.
    pub open spec fn initial_weight(self) -> int {
        self.a * self.a + self.b * self.b
    }

    /// `α = 0`.
    pub open spec fn initial_is_zero(self) -> bool {
        self.a == 0 && self.b == 0
    }

    /// `β = 0`.
    pub open spec fn possible_is_zero(self) -> bool {
        self.c == 0 && self.d == 0
    }

    /// The normalization invariant `|α|² + |β|² = 1`, exact.
    pub open spec fn is_valid(self) -> bool {
        self.total() == pow2(self.scale)
    }

    /// Every numerator is even.
    pub open spec fn all_even(self) -> bool {
        self.a % 2 == 0 && self.b % 2 == 0 && self.c % 2 == 0 && self.d % 2 == 0
    }

    /// The same amplitudes with the numerators and the denominator halved.
    pub open spec fn halved(self) -> PositionModel
        recommends
            self.scale >= 2,
    {
        PositionModel {
            a: self.a / 2,
            b: self.b / 2,
            c: self.c / 2,
            d: self.d / 2,
            scale: (self.scale - 2) as nat,
        }
    }

    /// No factor 2 can be taken out of the numerators and the denominator.
    pub open spec fn is_lowest(self) -> bool {
        self.scale < 2 || !self.all_even()
    }

    /// The same amplitudes in lowest terms.
    pub open spec fn lowest(self) -> PositionModel
        decreases self.scale,
    {
        if self.scale >= 2 && self.all_even() {
            self.halved().lowest()
        } else {
            self
        }
    }
}

/// The sum of squares of a position with the numerators `a, b, c, d`.
proof fn lemma_total_of(m: PositionModel, a: int, b: int, c: int, d: int)
    by (nonlinear_arith)
    requires
        m.a == a,
        m.b == b,
        m.c == c,
        m.d == d,
    ensures
        m.total() == a * a + b * b + c * c + d * d,
{
}

/// The square of an integer is `4e` when it is even and `8f + 1` when it is odd.
proof fn lemma_square_residue(x: int)
    ensures
        x % 2 == 0 ==> (x * x) % 4 == 0,
        x % 2 == 1 ==> (x * x) % 8 == 1,
{
    let q = x / 2;
    if x % 2 == 0 {
        assert(x * x == 4 * (q * q)) by (nonlinear_arith)
            requires
                x == 2 * q,
        ;
    } else {
        let s = q / 2;
        if q % 2 == 0 {
            assert(x * x == 8 * (s * (2 * s + 1)) + 1) by (nonlinear_arith)
                requires
                    x == 2 * q + 1,
                    q == 2 * s,
            ;
        } else {
            assert(x * x == 8 * ((2 * s + 1) * (s + 1)) + 1) by (nonlinear_arith)
                requires
                    x == 2 * q + 1,
                    q == 2 * s + 1,
            ;
        }
    }
}

proof fn lemma_pow2_multiple_of_eight(e: nat)
    requires
        e >= 3,
    ensures
        pow2(e) % 8 == 0,
    decreases e,
{
    lemma_pow2_unfold(e);
    if e == 3 {
        lemma2_to64();
    } else {
        lemma_pow2_multiple_of_eight((e - 1) as nat);
    }
}

/// A valid position in lowest terms has a denominator of at most `√2^2`.
pub proof fn lemma_lowest_valid_scale(m: PositionModel)
    requires
        m.is_valid(),
        m.is_lowest(),
    ensures
        m.scale <= 2,
{
    if m.scale >= 3 {
        lemma_pow2_multiple_of_eight(m.scale);
        lemma_square_residue(m.a);
        lemma_square_residue(m.b);
        lemma_square_residue(m.c);
        lemma_square_residue(m.d);
        assert(false);
    }
}

proof fn lemma_square_bound(x: int, t: int)
    by (nonlinear_arith)
    requires
        x * x <= t,
        t <= 4,
    ensures
        -2 <= x <= 2,
{
}

proof fn lemma_square_nonneg(x: int)
    by (nonlinear_arith)
    ensures
        x * x >= 0,
{
}

/// The numerators of a valid position in lowest terms lie in `[−2, 2]`.
pub proof fn lemma_lowest_valid_entries(m: PositionModel)
    requires
        m.is_valid(),
        m.is_lowest(),
    ensures
        -2 <= m.a <= 2,
        -2 <= m.b <= 2,
        -2 <= m.c <= 2,
        -2 <= m.d <= 2,
        m.scale <= 2,
{
    lemma_lowest_valid_scale(m);
    lemma2_to64();
    lemma_square_nonneg(m.a);
    lemma_square_nonneg(m.b);
    lemma_square_nonneg(m.c);
    lemma_square_nonneg(m.d);
    lemma_square_bound(m.a, m.total());
    lemma_square_bound(m.b, m.total());
    lemma_square_bound(m.c, m.total());
    lemma_square_bound(m.d, m.total());
}

/// Halving keeps a position valid.
proof fn lemma_halved_valid(m: PositionModel)
    requires
        m.is_valid(),
        m.scale >= 2,
        m.all_even(),
    ensures
        m.halved().is_valid(),
{
    let h = m.halved();
    assert(m.total() == 4 * h.total()) by (nonlinear_arith)
        requires
            m.a == 2 * h.a,
            m.b == 2 * h.b,
            m.c == 2 * h.c,
            m.d == 2 * h.d,
    ;
    lemma_pow2_unfold(m.scale);
    lemma_pow2_unfold((m.scale - 1) as nat);
}

/// Lowest terms keep a position valid and are in lowest terms.
pub proof fn lemma_lowest(m: PositionModel)
    ensures
        m.lowest().is_lowest(),
        m.is_valid() ==> m.lowest().is_valid(),
        m.is_lowest() ==> m.lowest() == m,
        m.lowest().initial_is_zero() == m.initial_is_zero(),
        m.lowest().possible_is_zero() == m.possible_is_zero(),
    decreases m.scale,
{
    if m.scale >= 2 && m.all_even() {
        if m.is_valid() {
            lemma_halved_valid(m);
        }
        lemma_lowest(m.halved());
    }
}

/// Lowest terms keep the probability of `true`: `weight / 2^scale`.
pub proof fn lemma_lowest_weight(m: PositionModel)
    ensures
        m.lowest().initial_weight() * pow2(m.scale) == m.initial_weight() * pow2(
            m.lowest().scale,
        ),
    decreases m.scale,
{
    if m.scale >= 2 && m.all_even() {
        let h = m.halved();
        let l = m.lowest();
        lemma_lowest_weight(h);
        assert(m.initial_weight() == 4 * h.initial_weight()) by (nonlinear_arith)
            requires
                m.a == 2 * h.a,
                m.b == 2 * h.b,
        ;
        lemma_pow2_unfold(m.scale);
        lemma_pow2_unfold((m.scale - 1) as nat);
        let (wl, wh, pl, ph) = (
            l.initial_weight(),
            h.initial_weight(),
            pow2(l.scale) as int,
            pow2(h.scale) as int,
        );
        assert(wl * (4 * ph) == (4 * wh) * pl) by (nonlinear_arith)
            requires
                wl * ph == wh * pl,
        ;
    }
}

proof fn lemma_small_square(x: int)
    by (nonlinear_arith)
    requires
        -2 <= x <= 2,
    ensures
        0 <= x * x <= 4,
        x * x == 0 <==> x == 0,
{
}

/// A position in complex vector space: two amplitudes `(α, β)`, held exactly as
/// Gaussian integers over the common denominator `√2^scale`.
#[derive(Clone, Copy, Debug, PartialEq, Eq, Structural)]
pub struct QuantumPosition {
    pub initial_position: GaussianInt,
    pub possible_position: GaussianInt,
    pub scale: u32,
}

impl View for QuantumPosition {
    type V = PositionModel;

    open spec fn view(&self) -> PositionModel {
        PositionModel {
            a: self.initial_position.re as int,
            b: self.initial_position.im as int,
            c: self.possible_position.re as int,
            d: self.possible_position.im as int,
            scale: self.scale as nat,
        }
    }
}

/// `|z|²`, exactly.
fn norm_sqr(z: GaussianInt) -> (r: i128)
    ensures
        r == z.re * z.re + z.im * z.im,
        0 <= r <= 0x8000_0000_0000_0000,
{
    let re = z.re as i128;
    let im = z.im as i128;
    assert(0 <= re * re <= 0x4000_0000_0000_0000) by (nonlinear_arith)
        requires
            -0x8000_0000 <= re <= 0x7fff_ffff,
    ;
    assert(0 <= im * im <= 0x4000_0000_0000_0000) by (nonlinear_arith)
        requires
            -0x8000_0000 <= im <= 0x7fff_ffff,
    ;
    re * re + im * im
}

impl QuantumPosition {
    /// A position with the amplitudes `(initial, possible)`; nothing is checked.
    pub fn new(initial_position: GaussianInt, possible_position: GaussianInt) -> (r: QuantumPosition)
        ensures
            r.initial_position == initial_position,
            r.possible_position == possible_position,
            r.scale == 0,
    {
        QuantumPosition { initial_position, possible_position, scale: 0 }
    }

    /// A position with the amplitudes `(initial, possible) / √2^scale`, stored
    /// in lowest terms so that equal amplitudes have one representation;
    /// validity is not checked.
    pub fn new_scaled(initial_position: GaussianInt, possible_position: GaussianInt, scale: u32) -> (r:
        QuantumPosition)
        ensures
            r@ == (PositionModel {
                a: initial_position.re as int,
                b: initial_position.im as int,
                c: possible_position.re as int,
                d: possible_position.im as int,
                scale: scale as nat,
            }).lowest(),
    {
        QuantumPosition { initial_position, possible_position, scale }.lowest_terms()
    }

    /// The basis state |0⟩: `(1, 0)`.
    pub fn zero() -> (r: QuantumPosition)
        ensures
            r@ == (PositionModel { a: 1, b: 0, c: 0, d: 0, scale: 0 }),
            r@.is_valid(),
    {
        let r = QuantumPosition::new(ket_one(), ket_zero());
        proof {
            lemma_total_of(r@, 1, 0, 0, 0);
            lemma2_to64();
        }
        r
    }

    /// The basis state |1⟩: `(0, 1)`.
    pub fn one() -> (r: QuantumPosition)
        ensures
            r@ == (PositionModel { a: 0, b: 0, c: 1, d: 0, scale: 0 }),
            r@.is_valid(),
    {
        let r = QuantumPosition::new(ket_zero(), ket_one());
        proof {
            lemma_total_of(r@, 0, 0, 1, 0);
            lemma2_to64();
        }
        r
    }

    /// `(0, −1)`.
    pub fn flip() -> (r: QuantumPosition)
        ensures
            r@ == (PositionModel { a: 0, b: 0, c: -1, d: 0, scale: 0 }),
            r@.is_valid(),
    {
        let r = QuantumPosition::new(ket_zero(), ket_flip());
        proof {
            lemma_total_of(r@, 0, 0, -1, 0);
            lemma2_to64();
        }
        r
    }

    /// `(i, 0)`.
    pub fn quarter_turn() -> (r: QuantumPosition)
        ensures
            r@ == (PositionModel { a: 0, b: 1, c: 0, d: 0, scale: 0 }),
            r@.is_valid(),
    {
        let r = QuantumPosition::new(ket_rotation(), ket_zero());
        proof {
            lemma_total_of(r@, 0, 1, 0, 0);
            lemma2_to64();
        }
        r
    }

    /// `(0, −i)`.
    pub fn back_quarter_turn() -> (r: QuantumPosition)
        ensures
            r@ == (PositionModel { a: 0, b: 0, c: 0, d: -1, scale: 0 }),
            r@.is_valid(),
    {
        let r = QuantumPosition::new(ket_zero(), ket_back_rotation());
        proof {
            lemma_total_of(r@, 0, 0, 0, -1);
            lemma2_to64();
        }
        r
    }

    /// Whether `|α|² + |β|² = 1`. The amplitudes are exact, so no rounding
    /// tolerance is needed.
    pub fn has_valid_amplitude(&self) -> (r: bool)
        ensures
            r == self@.is_valid(),
    {
        let total = norm_sqr(self.initial_position) + norm_sqr(self.possible_position);
        if self.scale > 64 {
            proof {
                lemma_pow2_strictly_increases(64, self.scale as nat);
                lemma2_to64_rest();
            }
            return false;
        }
        let mut power: i128 = 1;
        let mut i: u32 = 0;
        proof {
            lemma2_to64();
        }
        while i < self.scale
            invariant
                i <= self.scale <= 64,
                power == pow2(i as nat),
            decreases self.scale - i,
        {
            proof {
                lemma_pow2_unfold((i + 1) as nat);
                lemma_pow2_strictly_increases(i as nat, 64);
                lemma2_to64_rest();
            }
            power = power * 2;
            i = i + 1;
        }
        total == power
    }

    /// The same amplitudes in lowest terms.
    pub fn lowest_terms(&self) -> (r: QuantumPosition)
        ensures
            r@ == self@.lowest(),
    {
        let mut p = *self;
        while p.scale >= 2 && p.initial_position.re % 2 == 0 && p.initial_position.im % 2 == 0
            && p.possible_position.re % 2 == 0 && p.possible_position.im % 2 == 0
            invariant
                p@.lowest() == self@.lowest(),
            decreases p.scale,
        {
            p = QuantumPosition {
                initial_position: GaussianInt {
                    re: p.initial_position.re / 2,
                    im: p.initial_position.im / 2,
                },
                possible_position: GaussianInt {
                    re: p.possible_position.re / 2,
                    im: p.possible_position.im / 2,
                },
                scale: p.scale - 2,
            };
        }
        p
    }

    /// The probability `|α|²` of measuring `true`, as `(numerator,
    /// denominator)` read from the position in lowest terms, whose
    /// denominator `2^scale` is 1, 2 or 4.
    pub fn measurement_ratio(&self) -> (r: (u32, u32))
        requires
            self@.is_valid(),
        ensures
            r.1 == pow2(self@.lowest().scale),
            r.0 == self@.lowest().initial_weight(),
            r.0 * pow2(self@.scale) == self@.initial_weight() * r.1,
            r.0 <= r.1,
            0 < r.1 <= 4,
            r.0 == 0 <==> self@.initial_is_zero(),
            r.0 == r.1 <==> self@.possible_is_zero(),
    {
        let q = self.lowest_terms();
        proof {
            lemma_lowest(self@);
            lemma_lowest_weight(self@);
            lemma_lowest_valid_entries(q@);
            lemma2_to64();
            lemma_small_square(q@.a);
            lemma_small_square(q@.b);
            lemma_small_square(q@.c);
            lemma_small_square(q@.d);
        }
        let a = q.initial_position.re;
        let b = q.initial_position.im;
        let denominator: u32 = if q.scale == 0 {
            1
        } else if q.scale == 1 {
            2
        } else {
            4
        };
        ((a * a + b * b) as u32, denominator)
    }
}

} // verus!
