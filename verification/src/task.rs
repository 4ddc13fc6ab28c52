//! The sampling-and-logging task as a state machine.
//!
//! Each call to [`SamplerTask::step`] consumes one event and returns the
//! actions the surrounding driver must perform, in order. The driver owns
//! the hardware: it drives the excitation pin, reads the converter (with a
//! timeout, substituting a zero code when a read does not complete), writes
//! to the flash device and awaits the ticker, then hands the outcome back
//! as the next event. Every decision — the order of excitation and reads,
//! calibration, packing, cursor bookkeeping, the capacity policy and the
//! flight-mode gate — is made here and verified.

use vstd::prelude::*;
use crate::calibrate::calibrate_spec;
use crate::calibrate::to_millivolts;
use crate::mode::FlightMode;
use crate::mode::gate_open;
use crate::mode::gate_open_spec;
use crate::record::LogRecord;
use crate::record::WRITE_SIZE;
use crate::record::pack;
use crate::record::pack_spec;

verus! {

/// Number of ticks between two raw-sample diagnostic snapshots: the
/// snapshot is emitted on every 100th tick.
pub const DIAG_PERIOD: u32 = 100;

/// The sampling period in microseconds, one tick per period: the 2 kHz
/// rate the subsystem is documented to sample at. The driver configures
/// its ticker with this value.
pub const TICK_PERIOD_MICROS: u64 = 500;

/// Bound in microseconds on each converter read; a read that has not
/// completed by then degrades to a zero code. The driver applies this
/// bound around every `Action::ReadChannel`.
pub const ADC_TIMEOUT_MICROS: u64 = 100;

/// One converter channel of this subsystem.
#[derive(Clone, Copy, Debug, PartialEq, Eq, Structural)]
pub enum Channel {
    /// The fixed reference channel, the calibration denominator.
    Reference,
    /// Strain-gauge output channel 0.
    Gauge0,
    /// Strain-gauge output channel 1.
    Gauge1,
}

/// An instruction to the driver. The driver performs the actions of one
/// step in order; the last action of every step yields the next event.
#[derive(Clone, Copy, Debug, PartialEq, Eq, Structural)]
pub enum Action {
    /// Drive the excitation output to its active level.
    SetExcitationHigh,
    /// Drive the excitation output inactive.
    SetExcitationLow,
    /// Start a timeout-bounded read of a channel; answer with
    /// `Event::SampleReady`, substituting a zero code on timeout or
    /// read failure.
    ReadChannel(Channel),
    /// Check the flight-mode source for a newly published value, without
    /// blocking; answer with `Event::ModeUpdate`.
    PollFlightMode,
    /// Write the record at the given byte address of the flash log;
    /// answer with `Event::WriteDone`.
    WriteRecord(u32, LogRecord),
    /// Emit a diagnostic snapshot of the two raw gauge codes.
    EmitRawDiagnostic(u16, u16),
    /// Report a failed flash write; the loop is not retried or aborted.
    EmitWriteFailure,
    /// Report that the log has reached device capacity; nothing further
    /// will be written.
    EmitLogFull,
    /// Suspend until the next tick boundary; answer with
    /// `Event::TickFired`.
    AwaitTick,
}

/// An event handed back by the driver: the outcome of the last action of
/// the previous step, or `Started` once at the beginning.
#[derive(Clone, Copy, Debug)]
pub enum Event {
    /// The task has just been created; nothing has happened yet.
    Started,
    /// Outcome of `PollFlightMode`: the newly published mode, if any.
    ModeUpdate(Option<FlightMode>),
    /// The ticker fired: a new sampling window begins.
    TickFired,
    /// Outcome of `ReadChannel`: the raw code, with 0 substituted when
    /// the read timed out or failed.
    SampleReady(u16),
    /// Outcome of `WriteRecord`: whether the flash accepted the write.
    WriteDone(bool),
}

/// Where the task stands between two events.
#[derive(Clone, Copy, Debug, PartialEq, Eq, Structural)]
pub enum Phase {
    /// Held before the first tick until a qualifying flight mode is
    /// observed; carries the latest mode seen so far.
    Gated(FlightMode),
    /// Between ticks, waiting for the ticker.
    WaitingTick,
    /// Excitation is on; the reference channel read is outstanding.
    AwaitingReference,
    /// The gauge-0 read is outstanding; carries the reference code.
    AwaitingGauge0(u16),
    /// The gauge-1 read is outstanding; carries the reference code and
    /// the gauge-0 code.
    AwaitingGauge1(u16, u16),
    /// The flash write is outstanding.
    AwaitingWrite,
}

/// The task's whole state: the phase within the tick protocol, the
/// append-only log cursor, and the diagnostic tick counter.
pub struct SamplerTask {
    /// Where the task stands in the per-tick protocol.
    pub phase: Phase,
    /// Next free byte address of the flash log. Starts at 0, advances by
    /// `WRITE_SIZE` once per tick whose record fits, whether or not the
    /// write succeeded.
    pub cursor: u32,
    /// Capacity of the flash log in bytes. When the next record would not
    /// fit, the task stops writing and reports the log full: the cursor
    /// never passes this bound.
    pub capacity: u32,
    /// Ticks since the last raw-sample diagnostic snapshot.
    pub diag_count: u32,
    /// Whether the flight-mode gate is active; when false, sampling
    /// begins immediately.
    pub gate_enabled: bool,
}

impl SamplerTask {
    /// The state invariant: the cursor stays record-aligned and within
    /// capacity, a write is only outstanding when its record fits, the
    /// diagnostic counter never passes its period, and a held task has
    /// seen no qualifying flight mode.
    pub open spec fn wf(self) -> bool {
        &&& self.cursor <= self.capacity
        &&& self.cursor % WRITE_SIZE == 0
        &&& self.capacity % WRITE_SIZE == 0
        &&& self.diag_count < DIAG_PERIOD
        &&& (self.phase is AwaitingWrite ==> self.cursor + WRITE_SIZE <= self.capacity)
        &&& (self.phase matches Phase::Gated(m) ==> !gate_open_spec(m))
    }
}

/// Phase a fresh task starts in: held at the flight-mode check when it
/// is enabled, otherwise straight to waiting for the first tick.
pub open spec fn initial_phase(gate_enabled: bool) -> Phase {
    if gate_enabled {
        Phase::Gated(FlightMode::Idle)
    } else {
        Phase::WaitingTick
    }
}

/// Whether one more record fits in the log.
pub open spec fn has_room(s: SamplerTask) -> bool {
    s.cursor + WRITE_SIZE <= s.capacity
}

/// Whether the tick now completing is one that emits the raw-sample
/// diagnostic snapshot: every `DIAG_PERIOD`-th tick.
pub open spec fn diag_due(s: SamplerTask) -> bool {
    s.diag_count + 1 >= DIAG_PERIOD
}

/// The state after consuming event `e` in state `s`. A stray event that
/// does not fit the phase is ignored.
pub open spec fn step_state(s: SamplerTask, e: Event) -> SamplerTask {
    match (s.phase, e) {
        (Phase::Gated(m), Event::ModeUpdate(seen)) => {
            let now = match seen {
                Option::Some(new_mode) => new_mode,
                Option::None => m,
            };
            if gate_open_spec(now) {
                SamplerTask { phase: Phase::WaitingTick, ..s }
            } else {
                SamplerTask { phase: Phase::Gated(now), ..s }
            }
        },
        (Phase::WaitingTick, Event::TickFired) => SamplerTask {
            phase: Phase::AwaitingReference,
            ..s
        },
        (Phase::AwaitingReference, Event::SampleReady(vref)) => SamplerTask {
            phase: Phase::AwaitingGauge0(vref),
            ..s
        },
        (Phase::AwaitingGauge0(vref), Event::SampleReady(raw0)) => SamplerTask {
            phase: Phase::AwaitingGauge1(vref, raw0),
            ..s
        },
        (Phase::AwaitingGauge1(_, _), Event::SampleReady(_)) => {
            let next_count: u32 = if diag_due(s) {
                0u32
            } else {
                (s.diag_count + 1) as u32
            };
            if has_room(s) {
                SamplerTask { phase: Phase::AwaitingWrite, diag_count: next_count, ..s }
            } else {
                SamplerTask { phase: Phase::WaitingTick, diag_count: next_count, ..s }
            }
        },
        (Phase::AwaitingWrite, Event::WriteDone(_)) => SamplerTask {
            phase: Phase::WaitingTick,
            cursor: (s.cursor + WRITE_SIZE) as u32,
            ..s
        },
        _ => s,
    }
}

/// The actions emitted on consuming event `e` in state `s`, in the order
/// the driver must perform them. A stray event emits nothing.
pub open spec fn step_actions(s: SamplerTask, e: Event) -> Seq<Action> {
    match (s.phase, e) {
        (Phase::Gated(_), Event::Started) => seq![Action::PollFlightMode],
        (Phase::Gated(m), Event::ModeUpdate(seen)) => {
            let now = match seen {
                Option::Some(new_mode) => new_mode,
                Option::None => m,
            };
            if gate_open_spec(now) {
                seq![Action::AwaitTick]
            } else {
                seq![Action::PollFlightMode]
            }
        },
        (Phase::WaitingTick, Event::Started) => seq![Action::AwaitTick],
        (Phase::WaitingTick, Event::TickFired) => seq![
            Action::SetExcitationHigh,
            Action::ReadChannel(Channel::Reference),
        ],
        (Phase::AwaitingReference, Event::SampleReady(_)) => seq![
            Action::ReadChannel(Channel::Gauge0),
        ],
        (Phase::AwaitingGauge0(_), Event::SampleReady(_)) => seq![
            Action::ReadChannel(Channel::Gauge1),
        ],
        (Phase::AwaitingGauge1(vref, raw0), Event::SampleReady(raw1)) => {
            let head = if diag_due(s) {
                seq![Action::SetExcitationLow, Action::EmitRawDiagnostic(raw0, raw1)]
            } else {
                seq![Action::SetExcitationLow]
            };
            if has_room(s) {
                head.push(
                    Action::WriteRecord(
                        s.cursor,
                        pack_spec(calibrate_spec(vref, raw0), calibrate_spec(vref, raw1)),
                    ),
                )
            } else {
                head.push(Action::EmitLogFull).push(Action::AwaitTick)
            }
        },
        (Phase::AwaitingWrite, Event::WriteDone(ok)) => {
            if ok {
                seq![Action::AwaitTick]
            } else {
                seq![Action::EmitWriteFailure, Action::AwaitTick]
            }
        },
        _ => Seq::empty(),
    }
}

impl SamplerTask {
    /// A fresh task over an empty log of the given byte capacity.
    /// The capacity must hold a whole number of records.
    pub fn new(capacity: u32, gate_enabled: bool) -> (s: SamplerTask)
        requires
            capacity % WRITE_SIZE == 0,
        ensures
            s.wf(),
            s.phase == initial_phase(gate_enabled),
            s.cursor == 0,
            s.capacity == capacity,
            s.diag_count == 0,
            s.gate_enabled == gate_enabled,
    {
        let phase = if gate_enabled {
            Phase::Gated(FlightMode::Idle)
        } else {
            Phase::WaitingTick
        };
        SamplerTask { phase, cursor: 0, capacity, diag_count: 0, gate_enabled }
    }

    /// Consumes one event and returns the actions the driver must now
    /// perform, in order.
    pub fn step(&mut self, e: Event) -> (actions: Vec<Action>)
        requires
            old(self).wf(),
        ensures
            *final(self) == step_state(*old(self), e),
            actions@ == step_actions(*old(self), e),
            final(self).wf(),
    {
        let phase = self.phase;
        match (phase, e) {
            (Phase::Gated(_), Event::Started) => {
                vec![Action::PollFlightMode]
            },
            (Phase::Gated(m), Event::ModeUpdate(seen)) => {
                let now = match seen {
                    Option::Some(new_mode) => new_mode,
                    Option::None => m,
                };
                if gate_open(now) {
                    self.phase = Phase::WaitingTick;
                    vec![Action::AwaitTick]
                } else {
                    self.phase = Phase::Gated(now);
                    vec![Action::PollFlightMode]
                }
            },
            (Phase::WaitingTick, Event::Started) => {
                vec![Action::AwaitTick]
            },
            (Phase::WaitingTick, Event::TickFired) => {
                self.phase = Phase::AwaitingReference;
                vec![Action::SetExcitationHigh, Action::ReadChannel(Channel::Reference)]
            },
            (Phase::AwaitingReference, Event::SampleReady(vref)) => {
                self.phase = Phase::AwaitingGauge0(vref);
                vec![Action::ReadChannel(Channel::Gauge0)]
            },
            (Phase::AwaitingGauge0(vref), Event::SampleReady(raw0)) => {
                self.phase = Phase::AwaitingGauge1(vref, raw0);
                vec![Action::ReadChannel(Channel::Gauge1)]
            },
            (Phase::AwaitingGauge1(vref, raw0), Event::SampleReady(raw1)) => {
                let due: bool = self.diag_count + 1 >= DIAG_PERIOD;
                self.diag_count = if due {
                    0
                } else {
                    self.diag_count + 1
                };
                let mut actions: Vec<Action> = vec![Action::SetExcitationLow];
                if due {
                    actions.push(Action::EmitRawDiagnostic(raw0, raw1));
                }
                if self.capacity - self.cursor >= WRITE_SIZE {
                    let c0 = to_millivolts(vref, raw0);
                    let c1 = to_millivolts(vref, raw1);
                    let rec = pack(c0, c1);
                    actions.push(Action::WriteRecord(self.cursor, rec));
                    self.phase = Phase::AwaitingWrite;
                } else {
                    actions.push(Action::EmitLogFull);
                    actions.push(Action::AwaitTick);
                    self.phase = Phase::WaitingTick;
                }
                actions
            },
            (Phase::AwaitingWrite, Event::WriteDone(ok)) => {
                self.cursor = self.cursor + WRITE_SIZE;
                self.phase = Phase::WaitingTick;
                if ok {
                    vec![Action::AwaitTick]
                } else {
                    vec![Action::EmitWriteFailure, Action::AwaitTick]
                }
            },
            _ => {
                Vec::new()
            },
        }
    }
}

} // verus!
