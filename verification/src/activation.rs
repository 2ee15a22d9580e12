//! Activation functions: a named nonlinearity together with its derivative.
//! The derivative follows the standard backpropagation shortcut: it is taken
//! with respect to the pre-activation input but expressed in terms of the
//! already-activated output (for sigmoid, y * (1 - y), not f'(x)).

use vstd::prelude::*;

use crate::scalar::{
    add_bits, div_bits, exp_bits, max_zero_bits, mul_bits, neg_bits, scalar_add, scalar_div,
    scalar_exp, scalar_max_zero, scalar_mul, scalar_neg, scalar_sub, scalar_tanh, sub_bits,
    tanh_bits, ONE_BITS,
};

verus! {

/// The four built-in activations, selected once at network construction.
#[derive(Clone, Copy, Debug, PartialEq, Eq, Structural)]
pub enum Activation {
    Identity,
    Sigmoid,
    Tanh,
    Relu,
}

/// The bit pattern of a double that is strictly greater than zero: positive
/// sign, not the pattern of +0.0, and not one of the NaN patterns above the
/// positive-infinity pattern.
pub open spec fn gt_zero_bits(b: u64) -> bool {
    1 <= b <= 0x7FF0000000000000u64
}

/// What the forward pass applies at each neuron: the identity; the logistic
/// sigmoid 1 / (1 + e^(-x)); the hyperbolic tangent; or the rectifier
/// max(x, 0).
pub open spec fn act_apply(a: Activation, x: u64) -> u64 {
    match a {
        Activation::Identity => x,
        Activation::Sigmoid => div_bits(ONE_BITS, add_bits(ONE_BITS, exp_bits(neg_bits(x)))),
        Activation::Tanh => tanh_bits(x),
        Activation::Relu => max_zero_bits(x),
    }
}

/// The local gradient factor at an already-activated output `y`: 1 for the
/// identity; y * (1 - y) for sigmoid; 1 - y * y for tanh; and for the
/// rectifier 1 where y is positive, else 0.
pub open spec fn act_deriv(a: Activation, y: u64) -> u64 {
    match a {
        Activation::Identity => ONE_BITS,
        Activation::Sigmoid => mul_bits(y, sub_bits(ONE_BITS, y)),
        Activation::Tanh => sub_bits(ONE_BITS, mul_bits(y, y)),
        Activation::Relu => if gt_zero_bits(y) {
            ONE_BITS
        } else {
            0u64
        },
    }
}

impl Activation {
    /// Apply the activation to one scalar.
    pub fn apply(&self, x: u64) -> (r: u64)
        ensures
            r == act_apply(*self, x),
    {
        match self {
            Activation::Identity => x,
            Activation::Sigmoid => {
                let e = scalar_exp(scalar_neg(x));
                scalar_div(ONE_BITS, scalar_add(ONE_BITS, e))
            },
            Activation::Tanh => scalar_tanh(x),
            Activation::Relu => scalar_max_zero(x),
        }
    }

    /// The derivative at an already-activated output.
    pub fn derivative(&self, y: u64) -> (r: u64)
        ensures
            r == act_deriv(*self, y),
    {
        match self {
            Activation::Identity => ONE_BITS,
            Activation::Sigmoid => scalar_mul(y, scalar_sub(ONE_BITS, y)),
            Activation::Tanh => scalar_sub(ONE_BITS, scalar_mul(y, y)),
            Activation::Relu => {
                if 1 <= y && y <= 0x7FF0000000000000u64 {
                    ONE_BITS
                } else {
                    0u64
                }
            },
        }
    }
}

} // verus!
