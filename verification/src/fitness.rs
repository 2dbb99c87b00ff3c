//! Fitness scores as bit patterns.
//!
//! A fitness score is the sum of absolute prediction errors over the sample
//! set: a non-negative binary64 value, or a quiet "not a number" when a tree
//! divides by zero or otherwise leaves the real line.  The engine never does
//! that arithmetic itself; it receives the finished score as the raw bit
//! pattern of the binary64 value.  On the bit patterns of non-negative
//! binary64 values (sign bit clear) the unsigned integer order agrees with
//! the numeric order, so the engine compares, sorts and thresholds scores as
//! plain `u64` keys.

use vstd::prelude::*;

verus! {

/// Bit pattern of the sentinel score 9999999, the stand-in for a score that
/// is not a number when lower scores sort before higher ones ("desc" order,
/// where the best member is the last after sorting).
pub const NAN_SENTINEL_DESC: u64 = 0x416312cfe0000000;

/// The stand-in for a score that is not a number under the opposite order:
/// the bit pattern of zero.
pub const NAN_SENTINEL_ASC: u64 = 0;

/// Bit pattern of the termination threshold, one thousandth: a best member
/// scoring below it ends the run.
pub const FITNESS_TERMINATION_BITS: u64 = 0x3f50624dd2f1a9fc;

/// Whether a bit pattern encodes a binary64 value that is not a number:
/// exponent bits all set and a nonzero mantissa.
pub open spec fn is_nan_bits(bits: u64) -> bool {
    bits & 0x7ff0000000000000 == 0x7ff0000000000000 && bits & 0x000fffffffffffff != 0
}

/// What a raw score settles to: itself, unless it is not a number, in which
/// case the sentinel of the configured order takes its place.
pub open spec fn settled_fitness(raw_bits: u64, desc: bool) -> u64 {
    if is_nan_bits(raw_bits) {
        if desc {
            NAN_SENTINEL_DESC
        } else {
            NAN_SENTINEL_ASC
        }
    } else {
        raw_bits
    }
}

/// Settles a raw score: a score that is not a number is forced to the
/// sentinel of the configured order, so that a non-viable tree sorts as far
/// from best as possible; any other score stands.
pub fn settle_fitness(raw_bits: u64, desc: bool) -> (r: u64)
    ensures
        r == settled_fitness(raw_bits, desc),
{
    let exponent_all_set: bool = raw_bits & 0x7ff0000000000000 == 0x7ff0000000000000;
    let mantissa_nonzero: bool = raw_bits & 0x000fffffffffffff != 0;
    if exponent_all_set && mantissa_nonzero {
        if desc {
            NAN_SENTINEL_DESC
        } else {
            NAN_SENTINEL_ASC
        }
    } else {
        raw_bits
    }
}

} // verus!
