use vstd::prelude::*;

verus! {

/// A Gaussian integer `re + im·i`: the numerator of an amplitude, whose
/// denominator is the power of √2 that its position carries.
#[derive(Clone, Copy, Debug, PartialEq, Eq, Structural)]
pub struct GaussianInt {
    pub re: i32,
    pub im: i32,
}

impl GaussianInt {
    pub fn new(re: i32, im: i32) -> (r: GaussianInt)
        ensures
            r.re == re,
            r.im == im,
    {
        GaussianInt { re, im }
    }
}

/// The amplitude 0.
pub fn ket_zero() -> (r: GaussianInt)
    ensures
        r.re == 0 && r.im == 0,
{
    GaussianInt { re: 0, im: 0 }
}

/// The amplitude 1.
pub fn ket_one() -> (r: GaussianInt)
    ensures
        r.re == 1 && r.im == 0,
{
    GaussianInt { re: 1, im: 0 }
}

/// The amplitude −1.
pub fn ket_flip() -> (r: GaussianInt)
    ensures
        r.re == -1 && r.im == 0,
{
    GaussianInt { re: -1, im: 0 }
}

/// The amplitude i.
pub fn ket_rotation() -> (r: GaussianInt)
    ensures
        r.re == 0 && r.im == 1,
{
    GaussianInt { re: 0, im: 1 }
}

/// The amplitude −i.
pub fn ket_back_rotation() -> (r: GaussianInt)
    ensures
        r.re == 0 && r.im == -1,
{
    GaussianInt { re: 0, im: -1 }
}

} // verus!
