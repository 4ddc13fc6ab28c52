use strain_gauge::record::pack;
use strain_gauge::task::Action;
use strain_gauge::task::Channel;
use strain_gauge::task::Event;
use strain_gauge::task::Phase;
use strain_gauge::task::SamplerTask;

/// Drives one whole tick and returns every action the machine emitted.
fn drive_tick(task: &mut SamplerTask, vref: u16, raw0: u16, raw1: u16, write_ok: bool) -> Vec<Action> {
    let mut all = task.step(Event::TickFired);
    all.extend(task.step(Event::SampleReady(vref)));
    all.extend(task.step(Event::SampleReady(raw0)));
    let tail = task.step(Event::SampleReady(raw1));
    let wrote = tail.iter().any(|a| matches!(a, Action::WriteRecord(_, _)));
    all.extend(tail);
    if wrote {
        all.extend(task.step(Event::WriteDone(write_ok)));
    }
    all
}

#[test]
fn nominal_tick() {
    let mut task = SamplerTask::new(1024, false);
    assert_eq!(task.step(Event::Started), vec![Action::AwaitTick]);

    assert_eq!(
        task.step(Event::TickFired),
        vec![Action::SetExcitationHigh, Action::ReadChannel(Channel::Reference)]
    );
    assert_eq!(
        task.step(Event::SampleReady(2048)),
        vec![Action::ReadChannel(Channel::Gauge0)]
    );
    assert_eq!(
        task.step(Event::SampleReady(1024)),
        vec![Action::ReadChannel(Channel::Gauge1)]
    );
    let actions = task.step(Event::SampleReady(512));
    let expected_record = pack(600, 300);
    assert_eq!(expected_record.to_bytes(), [0x58, 0x02, 0x2C, 0x01]);
    assert_eq!(
        actions,
        vec![Action::SetExcitationLow, Action::WriteRecord(0, expected_record)]
    );
    assert_eq!(task.step(Event::WriteDone(true)), vec![Action::AwaitTick]);
    assert_eq!(task.cursor, 4);
    assert_eq!(task.phase, Phase::WaitingTick);
}

#[test]
fn write_failure_still_advances_cursor() {
    let mut task = SamplerTask::new(1024, false);
    task.step(Event::Started);

    task.step(Event::TickFired);
    task.step(Event::SampleReady(2048));
    task.step(Event::SampleReady(1024));
    task.step(Event::SampleReady(512));
    let finish = task.step(Event::WriteDone(false));
    assert_eq!(finish, vec![Action::EmitWriteFailure, Action::AwaitTick]);
    assert_eq!(task.cursor, 4);

    // the next tick proceeds normally: no retry, no abort
    assert_eq!(
        task.step(Event::TickFired),
        vec![Action::SetExcitationHigh, Action::ReadChannel(Channel::Reference)]
    );
    task.step(Event::SampleReady(2048));
    task.step(Event::SampleReady(1024));
    let actions = task.step(Event::SampleReady(512));
    assert!(actions.contains(&Action::WriteRecord(4, pack(600, 300))));
    task.step(Event::WriteDone(true));
    assert_eq!(task.cursor, 8);
}

#[test]
fn cursor_after_n_ticks() {
    let mut task = SamplerTask::new(4096, false);
    task.step(Event::Started);
    for n in 0..10u32 {
        assert_eq!(task.cursor, n * 4);
        // write outcome alternates; the cursor advances either way
        drive_tick(&mut task, 2048, 1024, 512, n % 2 == 0);
    }
    assert_eq!(task.cursor, 40);
}

#[test]
fn excitation_window_sequence() {
    let mut task = SamplerTask::new(1024, false);
    task.step(Event::Started);
    let all = drive_tick(&mut task, 2048, 1024, 512, true);
    let window: Vec<&Action> = all
        .iter()
        .filter(|a| {
            matches!(
                a,
                Action::SetExcitationHigh | Action::SetExcitationLow | Action::ReadChannel(_)
            )
        })
        .collect();
    assert_eq!(
        window,
        vec![
            &Action::SetExcitationHigh,
            &Action::ReadChannel(Channel::Reference),
            &Action::ReadChannel(Channel::Gauge0),
            &Action::ReadChannel(Channel::Gauge1),
            &Action::SetExcitationLow,
        ]
    );
    // power-off comes before the write and the wait
    assert_eq!(all[4], Action::SetExcitationLow);
    assert_eq!(all[all.len() - 1], Action::AwaitTick);
}

#[test]
fn timed_out_reads_substitute_zero_and_complete_the_tick() {
    // the driver answers a timed-out read with a zero code; the tick still
    // runs to completion and logs a zero record
    let mut task = SamplerTask::new(1024, false);
    task.step(Event::Started);
    let all = drive_tick(&mut task, 0, 0, 0, true);
    assert!(all.contains(&Action::SetExcitationLow));
    assert!(all.contains(&Action::WriteRecord(0, pack(0, 0))));
    assert_eq!(all[all.len() - 1], Action::AwaitTick);
    assert_eq!(task.cursor, 4);
    assert_eq!(task.phase, Phase::WaitingTick);
}

#[test]
fn log_full_stops_writing() {
    let mut task = SamplerTask::new(8, false);
    task.step(Event::Started);
    drive_tick(&mut task, 2048, 1024, 512, true);
    drive_tick(&mut task, 2048, 1024, 512, true);
    assert_eq!(task.cursor, 8);

    let all = drive_tick(&mut task, 2048, 1024, 512, true);
    assert!(all.contains(&Action::EmitLogFull));
    assert!(!all.iter().any(|a| matches!(a, Action::WriteRecord(_, _))));
    assert_eq!(all[all.len() - 1], Action::AwaitTick);
    assert_eq!(task.cursor, 8);
    assert_eq!(task.phase, Phase::WaitingTick);
}

#[test]
fn raw_sample_diagnostic_every_hundredth_tick() {
    let mut task = SamplerTask::new(4096, false);
    task.step(Event::Started);
    for _ in 0..99 {
        let all = drive_tick(&mut task, 2048, 1024, 512, true);
        assert!(!all.iter().any(|a| matches!(a, Action::EmitRawDiagnostic(_, _))));
    }
    let all = drive_tick(&mut task, 2048, 700, 800, true);
    assert!(all.contains(&Action::EmitRawDiagnostic(700, 800)));
    // the counter resets: the next tick is quiet again
    let all = drive_tick(&mut task, 2048, 1024, 512, true);
    assert!(!all.iter().any(|a| matches!(a, Action::EmitRawDiagnostic(_, _))));
}
