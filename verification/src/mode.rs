//! The flight-mode gate: an optional pre-sampling gate that holds the task
//! back until the externally published flight phase has reached the point
//! where recording should begin.

use vstd::prelude::*;

verus! {

/// Flight phase as this subsystem distinguishes it, in ascending order of
/// mission progress. The value is published by another subsystem; this
/// task only compares it against the recording threshold.
#[derive(Clone, Copy, Debug, PartialEq, Eq, Structural)]
pub enum FlightMode {
    /// Idle on the pad, recording not wanted yet.
    Idle,
    /// Armed, launch not yet imminent.
    Armed,
    /// Launch imminent: recording must begin.
    ArmedLaunchImminent,
    /// In flight.
    Flight,
}

/// Position of a mode in the mission's progression.
pub open spec fn mode_rank(m: FlightMode) -> int {
    match m {
        FlightMode::Idle => 0,
        FlightMode::Armed => 1,
        FlightMode::ArmedLaunchImminent => 2,
        FlightMode::Flight => 3,
    }
}

/// Whether a mode lets sampling begin: launch imminent, or any later phase.
pub open spec fn gate_open_spec(m: FlightMode) -> bool {
    mode_rank(m) >= mode_rank(FlightMode::ArmedLaunchImminent)
}

/// Whether sampling may begin under mode `m`.
pub fn gate_open(m: FlightMode) -> (b: bool)
    ensures
        b == gate_open_spec(m),
{
    matches!(m, FlightMode::ArmedLaunchImminent | FlightMode::Flight)
}

} // verus!
