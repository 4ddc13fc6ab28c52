//! Laws of the tick protocol: what one complete tick, and any number of
//! ticks, do to the task's state and to the driver.

use vstd::prelude::*;
use crate::calibrate::calibrate_spec;
use crate::mode::gate_open_spec;
use crate::record::WRITE_SIZE;
use crate::record::pack_spec;
use crate::task::Action;
use crate::task::Channel;
use crate::task::Event;
use crate::task::SamplerTask;
use crate::task::diag_due;
use crate::task::has_room;
use crate::task::step_actions;
use crate::task::step_state;

verus! {

/// Everything the outside world feeds into one tick: the three raw codes
/// (zero already substituted for a timed-out read) and whether the flash
/// accepted the write.
#[derive(Clone, Copy, Debug, PartialEq, Eq, Structural)]
pub struct TickInput {
    /// Raw code of the reference channel.
    pub vref: u16,
    /// Raw code of gauge channel 0.
    pub raw0: u16,
    /// Raw code of gauge channel 1.
    pub raw1: u16,
    /// Whether the flash accepted the record.
    pub write_ok: bool,
}

/// The state after one complete tick driven from `s`: the tick event, the
/// three sample events, and — when the record fit — the write outcome.
pub open spec fn run_tick(s: SamplerTask, t: TickInput) -> SamplerTask {
    let s1 = step_state(s, Event::TickFired);
    let s2 = step_state(s1, Event::SampleReady(t.vref));
    let s3 = step_state(s2, Event::SampleReady(t.raw0));
    let s4 = step_state(s3, Event::SampleReady(t.raw1));
    if has_room(s3) {
        step_state(s4, Event::WriteDone(t.write_ok))
    } else {
        s4
    }
}

/// All actions one complete tick emits, in driver order.
pub open spec fn tick_actions(s: SamplerTask, t: TickInput) -> Seq<Action> {
    let s1 = step_state(s, Event::TickFired);
    let s2 = step_state(s1, Event::SampleReady(t.vref));
    let s3 = step_state(s2, Event::SampleReady(t.raw0));
    let s4 = step_state(s3, Event::SampleReady(t.raw1));
    let acts = step_actions(s, Event::TickFired) + step_actions(s1, Event::SampleReady(t.vref))
        + step_actions(s2, Event::SampleReady(t.raw0)) + step_actions(
        s3,
        Event::SampleReady(t.raw1),
    );
    if has_room(s3) {
        acts + step_actions(s4, Event::WriteDone(t.write_ok))
    } else {
        acts
    }
}

/// Law: while the log has room, one tick advances the cursor by exactly
/// one record size — whether or not the write succeeded — and returns the
/// task to waiting for the next tick, with capacity and configuration
/// untouched and the invariant preserved.
pub proof fn lemma_tick_advances_cursor(s: SamplerTask, t: TickInput)
    requires
        s.wf(),
        s.phase is WaitingTick,
        s.cursor + WRITE_SIZE <= s.capacity,
    ensures
        ({
            let r = run_tick(s, t);
            &&& r.wf()
            &&& r.phase is WaitingTick
            &&& r.cursor == s.cursor + WRITE_SIZE
            &&& r.capacity == s.capacity
            &&& r.gate_enabled == s.gate_enabled
        }),
{
}

/// Law: once the next record would pass the log's capacity, a tick leaves
/// the cursor exactly where it was, writes nothing, reports the log full,
/// and still completes into waiting for the next tick.
pub proof fn lemma_tick_log_full(s: SamplerTask, t: TickInput)
    requires
        s.wf(),
        s.phase is WaitingTick,
        s.cursor + WRITE_SIZE > s.capacity,
    ensures
        ({
            let r = run_tick(s, t);
            &&& r.wf()
            &&& r.phase is WaitingTick
            &&& r.cursor == s.cursor
        }),
        tick_actions(s, t).contains(Action::EmitLogFull),
        forall|i: int|
            0 <= i < tick_actions(s, t).len() ==> !(tick_actions(s, t)[i] is WriteRecord),
{
    let ta = tick_actions(s, t);
    assert(ta[ta.len() - 2] == Action::EmitLogFull);
    assert(ta.contains(Action::EmitLogFull));
}

/// The states a task may pass through over any number of ticks driven by
/// the given inputs, latest tick last.
pub open spec fn run_ticks(s: SamplerTask, inputs: Seq<TickInput>) -> SamplerTask
    decreases inputs.len(),
{
    if inputs.len() == 0 {
        s
    } else {
        run_tick(run_ticks(s, inputs.drop_last()), inputs.last())
    }
}

/// Law: cursor monotonicity. From a task between ticks, N further ticks
/// move the cursor to exactly `N * WRITE_SIZE` bytes past where it stood,
/// for every choice of samples and write outcomes, as long as N records
/// fit. In particular, from a fresh log the cursor after N ticks is 4·N.
pub proof fn lemma_cursor_after_ticks(s: SamplerTask, inputs: Seq<TickInput>)
    requires
        s.wf(),
        s.phase is WaitingTick,
        s.cursor + WRITE_SIZE * inputs.len() <= s.capacity,
    ensures
        ({
            let r = run_ticks(s, inputs);
            &&& r.wf()
            &&& r.phase is WaitingTick
            &&& r.cursor == s.cursor + WRITE_SIZE * inputs.len()
            &&& r.capacity == s.capacity
            &&& r.gate_enabled == s.gate_enabled
        }),
    decreases inputs.len(),
{
    if inputs.len() > 0 {
        lemma_cursor_after_ticks(s, inputs.drop_last());
        lemma_tick_advances_cursor(run_ticks(s, inputs.drop_last()), inputs.last());
    }
}

/// Law: a failed flash write is reported. When the write outcome is a
/// failure, the tick's actions end with the failure notice followed by
/// the wait for the next tick; after a successful write no failure notice
/// appears anywhere in the tick.
pub proof fn lemma_write_failure_reported(s: SamplerTask, t: TickInput)
    requires
        s.wf(),
        s.phase is WaitingTick,
        s.cursor + WRITE_SIZE <= s.capacity,
    ensures
        ({
            let ta = tick_actions(s, t);
            &&& ta.len() >= 2
            &&& ta[ta.len() - 1] == Action::AwaitTick
            &&& (!t.write_ok ==> ta[ta.len() - 2] == Action::EmitWriteFailure)
            &&& (t.write_ok ==> forall|i: int|
                0 <= i < ta.len() ==> !(ta[i] is EmitWriteFailure))
        }),
{
}

/// Law: the flight-mode hold. While the task still awaits a qualifying
/// flight mode, no event makes it touch the excitation output, the
/// converter or the flash, and the cursor stays put; sampling is
/// released exactly when a qualifying mode is published.
pub proof fn lemma_gate_holds(s: SamplerTask, e: Event)
    requires
        s.wf(),
        s.phase is Gated,
    ensures
        ({
            let r = step_state(s, e);
            let acts = step_actions(s, e);
            &&& r.wf()
            &&& r.cursor == s.cursor
            &&& (r.phase is Gated || r.phase is WaitingTick)
            &&& (r.phase is WaitingTick <==> (e matches Event::ModeUpdate(
                Option::Some(m),
            ) && gate_open_spec(m)))
            &&& forall|i: int|
                0 <= i < acts.len() ==> !touches_excitation_or_adc(acts[i]) && !(acts[i]
                    is WriteRecord)
        }),
{
}

/// Whether an action touches the excitation output or the converter.
pub open spec fn touches_excitation_or_adc(a: Action) -> bool {
    a is SetExcitationHigh || a is SetExcitationLow || a is ReadChannel
}

/// Law: the excitation window. Across one tick the excitation output and
/// the converter are driven in exactly this order: power on, the
/// reference read, the two gauge reads, power off — and no action after
/// power-off touches either again. The bridge is never unpowered during
/// a read nor powered outside the sampling window.
pub proof fn lemma_excitation_window(s: SamplerTask, t: TickInput)
    requires
        s.wf(),
        s.phase is WaitingTick,
    ensures
        ({
            let ta = tick_actions(s, t);
            &&& ta.len() >= 5
            &&& ta[0] == Action::SetExcitationHigh
            &&& ta[1] == Action::ReadChannel(Channel::Reference)
            &&& ta[2] == Action::ReadChannel(Channel::Gauge0)
            &&& ta[3] == Action::ReadChannel(Channel::Gauge1)
            &&& ta[4] == Action::SetExcitationLow
            &&& forall|i: int| 5 <= i < ta.len() ==> !touches_excitation_or_adc(ta[i])
        }),
{
}

/// Law: the record written. While the log has room, a tick issues exactly
/// one write: the packed pair of calibrated readings, addressed at the
/// cursor the tick started from.
pub proof fn lemma_tick_writes_record(s: SamplerTask, t: TickInput)
    requires
        s.wf(),
        s.phase is WaitingTick,
        s.cursor + WRITE_SIZE <= s.capacity,
    ensures
        ({
            let ta = tick_actions(s, t);
            let wi: int = if diag_due(s) {
                6
            } else {
                5
            };
            &&& 0 <= wi < ta.len()
            &&& ta[wi] == Action::WriteRecord(
                s.cursor,
                pack_spec(calibrate_spec(t.vref, t.raw0), calibrate_spec(t.vref, t.raw1)),
            )
            &&& forall|i: int| 0 <= i < ta.len() && i != wi ==> !(ta[i] is WriteRecord)
        }),
{
}

} // verus!
