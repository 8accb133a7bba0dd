//! The blob gas price of EIP-4844: `fake_exponential` and the inputs on which it is
//! defined in `u128` arithmetic.
use vstd::prelude::*;

verus! {

/// The step measure of the `fake_exponential` loop: first the iterations left until
/// the counter passes the numerator, then the accumulator, which falls from there on.
pub open spec fn fake_exp_measure(numerator: u128, i: u128) -> int {
    if i <= numerator {
        numerator - i + 1
    } else {
        0
    }
}

/// Past the numerator, one step of the loop makes the accumulator smaller.
pub proof fn lemma_fake_exp_step_falls(accum: u128, numerator: u128, denominator: u128, i: u128)
    requires
        accum > 0,
        denominator > 0,
        i > numerator,
    ensures
        0 <= (accum * numerator) / (denominator * i) < accum,
{
    let a = accum as int;
    let n = numerator as int;
    let di = (denominator * i) as int;
    assert(di >= i) by (nonlinear_arith)
        requires
            denominator >= 1,
            i >= 1,
            di == denominator * i,
    ;
    assert(a * n < a * di) by (nonlinear_arith)
        requires
            a > 0,
            n < di,
    ;
    assert(0 <= (a * n) / di < a) by (nonlinear_arith)
        requires
            a * n < a * di,
            di > 0,
            a * n >= 0,
    ;
}

/// The product of two positive counters is positive.
pub proof fn lemma_positive_product(denominator: u128, i: u128)
    requires
        denominator > 0,
        i > 0,
    ensures
        denominator * i > 0,
{
    assert(denominator * i > 0) by (nonlinear_arith)
        requires
            denominator > 0,
            i > 0,
    ;
}

/// The loop of EIP-4844's `fake_exponential` from the counter `i`, the sum `output` and
/// the term `accum`, in `u128` arithmetic: `None` where a step overflows (an addition,
/// the product `denominator * i`, or the counter's increment), the result otherwise.
/// A term whose product with the numerator overflows ends the loop.
pub open spec fn fake_exp_from(numerator: u128, denominator: u128, i: u128, output: u128, accum: u128) -> Option<u128>
    decreases fake_exp_measure(numerator, i), accum,
{
    if denominator == 0 || i == 0 {
        None
    } else if accum == 0 {
        Some(output / denominator)
    } else if output + accum > u128::MAX {
        None
    } else if accum * numerator > u128::MAX {
        Some(((output + accum) as u128) / denominator)
    } else if denominator * i > u128::MAX || i == u128::MAX {
        None
    } else {
        proof {
            lemma_positive_product(denominator, i);
            if i > numerator {
                lemma_fake_exp_step_falls(accum, numerator, denominator, i);
                assert(decreases_to!(fake_exp_measure(numerator, i), accum => fake_exp_measure(numerator, (i + 1) as u128), ((accum * numerator) / (denominator * i)) as u128));
            }
        }
        fake_exp_from(
            numerator,
            denominator,
            (i + 1) as u128,
            (output + accum) as u128,
            ((accum * numerator) / (denominator * i)) as u128,
        )
    }
}

/// EIP-4844's `fake_exponential(factor, numerator, denominator)` in `u128` arithmetic:
/// `None` where the denominator is zero or a step overflows.
pub open spec fn fake_exponential(factor: u128, numerator: u128, denominator: u128) -> Option<u128> {
    if denominator == 0 || factor * denominator > u128::MAX {
        None
    } else {
        fake_exp_from(numerator, denominator, 1, 0, (factor * denominator) as u128)
    }
}

/// The blob gas price of a block with `excess_blob_gas` under the fee parameters
/// `min_blob_fee` and `update_fraction`, where it is defined.
pub open spec fn spec_blob_fee(min_blob_fee: u128, update_fraction: u128, excess_blob_gas: u64) -> Option<u128> {
    fake_exponential(min_blob_fee, excess_blob_gas as u128, update_fraction)
}

/// Whether the blob gas price of a block with `excess_blob_gas` can be computed under
/// the fee parameters `min_blob_fee` and `update_fraction` without overflow.
pub fn blob_fee_computable(min_blob_fee: u128, update_fraction: u128, excess_blob_gas: u64) -> (res: bool)
    ensures
        res == spec_blob_fee(min_blob_fee, update_fraction, excess_blob_gas) is Some,
{
    let numerator = excess_blob_gas as u128;
    let denominator = update_fraction;
    if denominator == 0 {
        return false;
    }
    let mut accum = match min_blob_fee.checked_mul(denominator) {
        Some(v) => v,
        None => {
            return false;
        },
    };
    let mut i: u128 = 1;
    let mut output: u128 = 0;
    loop
        invariant
            denominator > 0,
            i >= 1,
            numerator == excess_blob_gas as u128,
            fake_exp_from(numerator, denominator, i, output, accum) == spec_blob_fee(
                min_blob_fee,
                update_fraction,
                excess_blob_gas,
            ),
        decreases fake_exp_measure(numerator, i), accum,
    {
        if accum == 0 {
            return true;
        }
        output = match output.checked_add(accum) {
            Some(v) => v,
            None => {
                return false;
            },
        };
        let val = match accum.checked_mul(numerator) {
            Some(v) => v,
            None => {
                return true;
            },
        };
        let step = match denominator.checked_mul(i) {
            Some(v) => v,
            None => {
                return false;
            },
        };
        if i == u128::MAX {
            return false;
        }
        proof {
            lemma_positive_product(denominator, i);
            if i > numerator {
                lemma_fake_exp_step_falls(accum, numerator, denominator, i);
            }
        }
        accum = val / step;
        i = i + 1;
    }
}

} // verus!
