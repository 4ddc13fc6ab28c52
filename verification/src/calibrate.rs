//! Ratiometric calibration: converting a raw converter code into a
//! millivolt reading scaled by the reference channel's code.

use vstd::prelude::*;
use vstd::arithmetic::div_mod::lemma_small_mod;

verus! {

/// Nominal voltage of the fixed reference channel, in millivolts.
pub const KNOWN_REFERENCE_MV: u32 = 1200;

/// Millivolt value derived from a raw code `raw` and the reference code
/// `vref`, as a mathematical function.
///
/// A zero reference denominator is guarded: the result is then 0, a
/// deterministic fallback instead of a division fault. When the quotient
/// exceeds the 16-bit range the value is reduced modulo 2^16, matching a
/// truncating narrowing of the 32-bit quotient.
pub open spec fn calibrate_spec(vref: u16, raw: u16) -> u16 {
    if vref == 0 {
        0u16
    } else {
        ((raw * KNOWN_REFERENCE_MV / (vref as int)) % 0x10000) as u16
    }
}

/// Converts one raw converter code to millivolts, scaled against the
/// reference channel's code for the same tick.
pub fn to_millivolts(vref_sample: u16, sample: u16) -> (mv: u16)
    ensures
        mv == calibrate_spec(vref_sample, sample),
{
    if vref_sample == 0 {
        0
    } else {
        let scaled: u32 = (sample as u32) * KNOWN_REFERENCE_MV / (vref_sample as u32);
        (scaled % 0x10000) as u16
    }
}

/// Law: wherever the true quotient fits in 16 bits, calibration computes
/// exactly `raw * 1200 / vref` with truncating integer division. The side
/// condition `raw * 1200 < 0x10000 * vref` holds precisely on those inputs.
pub proof fn lemma_calibration_exact(vref: u16, raw: u16)
    requires
        0 < vref,
        raw * KNOWN_REFERENCE_MV < 0x10000 * vref,
    ensures
        calibrate_spec(vref, raw) == raw * KNOWN_REFERENCE_MV / (vref as int),
{
    let q = raw * KNOWN_REFERENCE_MV / (vref as int);
    assert(0 <= q < 0x10000) by (nonlinear_arith)
        requires
            0 < vref,
            0 <= raw * KNOWN_REFERENCE_MV < 0x10000 * vref,
            q == raw * KNOWN_REFERENCE_MV / (vref as int),
    ;
    lemma_small_mod(q as nat, 0x10000);
}

/// Law: a gauge code no larger than the reference code calibrates to at
/// most the full reference voltage, so the quotient always fits and is
/// exact. This covers the whole ratiometric operating domain.
pub proof fn lemma_calibration_in_range(vref: u16, raw: u16)
    requires
        0 < vref,
        raw <= vref,
    ensures
        calibrate_spec(vref, raw) == raw * KNOWN_REFERENCE_MV / (vref as int),
        calibrate_spec(vref, raw) <= KNOWN_REFERENCE_MV,
{
    assert(raw * KNOWN_REFERENCE_MV < 0x10000 * vref) by (nonlinear_arith)
        requires
            0 < vref,
            raw <= vref,
    ;
    lemma_calibration_exact(vref, raw);
    assert(raw * KNOWN_REFERENCE_MV / (vref as int) <= KNOWN_REFERENCE_MV) by (nonlinear_arith)
        requires
            0 < vref,
            raw <= vref,
    ;
}

/// Law: a zero reference code never faults; the fallback reading is 0.
pub proof fn lemma_degenerate_reference(raw: u16)
    ensures
        calibrate_spec(0, raw) == 0,
{
}

} // verus!
