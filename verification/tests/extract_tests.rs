use tricore_probe::csa::UpperContext;
use tricore_probe::extract::{Event, Extractor, HaltReason, Phase, ProbeAction, Step};
use tricore_probe::mcd::CoreState;
use tricore_probe::stacktrace::Stacktrace;
use tricore_probe::{ProbeError, ProtocolViolation};

const ID_TAG: [u8; 16] = *b"SEGGER RTT\0\0\0\0\0\0";

/// A little simulated target: 128 bytes of RAM with the control block at
/// address 0 and the ring buffer at address 64, plus a script of poll
/// answers and the backtrace the unwinder would produce.
struct Sim {
    memory: Vec<u8>,
    poll_answers: Vec<(usize, Option<CoreState>)>,
    polls: Vec<usize>,
    published: Vec<u8>,
    actions: Vec<String>,
    backtrace: Stacktrace,
    /// Write-index values the simulated firmware advances to, one per poll.
    write_index_schedule: Vec<Option<u32>>,
}

impl Sim {
    fn new(id: &[u8; 16], buffer_address: u32, buffer_size: u32, write_index: u32) -> Sim {
        let mut memory = vec![0u8; (buffer_address + buffer_size) as usize];
        memory[0..16].copy_from_slice(id);
        memory[28..32].copy_from_slice(&buffer_address.to_le_bytes());
        memory[32..36].copy_from_slice(&buffer_size.to_le_bytes());
        memory[36..40].copy_from_slice(&write_index.to_le_bytes());
        for i in 0..buffer_size {
            memory[(buffer_address + i) as usize] = i as u8;
        }
        let mut upper = UpperContext::default();
        upper.a11 = 0x9000_0010;
        Sim {
            memory,
            poll_answers: Vec::new(),
            polls: Vec::new(),
            published: Vec::new(),
            actions: Vec::new(),
            backtrace: Stacktrace::new(0x9000_0000, upper, Vec::new()),
            write_index_schedule: Vec::new(),
        }
    }

    /// Perform one action and report what happened as the next event.
    fn perform(&mut self, action: ProbeAction) -> Event {
        match action {
            ProbeAction::ResetPrimary => {
                self.actions.push("reset primary".into());
                Event::Done
            }
            ProbeAction::ResetSecondary { index } => {
                self.actions.push(format!("reset secondary {index}"));
                Event::Done
            }
            ProbeAction::ArmWriteTrigger { trigger, address, size } => {
                assert!(matches!(trigger, tricore_probe::mcd::TriggerType::RW));
                assert_eq!(size, 4);
                self.actions.push(format!("arm trigger at {address}"));
                Event::Done
            }
            ProbeAction::DetachAndRun => {
                self.actions.push("detach and run".into());
                Event::Done
            }
            ProbeAction::Wait { core } => {
                self.actions.push(format!("grace delay for core {core}"));
                Event::Done
            }
            ProbeAction::Read { core, address, length } => {
                self.actions.push(format!("read core {core} at {address} len {length}"));
                let s = address as usize;
                Event::BytesRead(self.memory[s..s + length as usize].to_vec())
            }
            ProbeAction::Write { core, address, bytes } => {
                self.actions.push(format!("write core {core} at {address} len {}", bytes.len()));
                let s = address as usize;
                self.memory[s..s + bytes.len()].copy_from_slice(&bytes);
                Event::Done
            }
            ProbeAction::Query { core, tolerate_reset } => {
                self.actions
                    .push(format!("query core {core} tolerate_reset {tolerate_reset}"));
                self.polls.push(core);
                let (expected_core, answer) = self.poll_answers.remove(0);
                assert_eq!(core, expected_core, "poll hit an unexpected core");
                if !self.write_index_schedule.is_empty() {
                    if let Some(w) = self.write_index_schedule.remove(0) {
                        self.memory[36..40].copy_from_slice(&w.to_le_bytes());
                    }
                }
                match answer {
                    Some(state) => Event::State(state),
                    None => Event::StateTolerated,
                }
            }
            ProbeAction::Publish { bytes } => {
                self.actions.push(format!("publish {} bytes", bytes.len()));
                self.published.extend_from_slice(&bytes);
                Event::Done
            }
            ProbeAction::Unwind { core } => {
                self.actions.push(format!("unwind core {core}"));
                Event::Backtrace(self.backtrace.clone())
            }
        }
    }

    /// Drive the extractor until it finishes or fails.
    fn run(&mut self, extractor: &mut Extractor) -> Result<HaltReason, ProbeError> {
        let mut event = Event::Started;
        loop {
            match extractor.step(event)? {
                Step::Continue(action) => event = self.perform(action),
                Step::Finished(halt) => return Ok(halt),
            }
        }
    }
}

#[test]
fn full_session_drains_and_returns_the_backtrace() {
    let mut sim = Sim::new(&ID_TAG, 64, 64, 20);
    // The startup poll answers "halted" (trigger hit); after the first
    // drain the primary core reports halted, so one final drain runs and
    // the unwinder is invoked.
    sim.poll_answers = vec![(0, Some(CoreState::Halted)), (0, Some(CoreState::Halted))];
    let mut extractor = Extractor::new(0, 0);
    let halt = sim.run(&mut extractor).unwrap();
    let HaltReason::DebugHit(trace) = halt;
    assert_eq!(trace.current_pc, 0x9000_0000);
    // The single drain took buffer bytes 0..20.
    let expected: Vec<u8> = (0u8..20).collect();
    assert_eq!(sim.published, expected);
    assert!(matches!(extractor.phase, Phase::Done));
    // The host-attached flag was written into the flags word.
    assert_eq!(&sim.memory[44..48], &2u32.to_le_bytes());
    // The host read index was written back.
    assert_eq!(&sim.memory[40..44], &20u32.to_le_bytes());
}

#[test]
fn malformed_id_fails_before_any_buffer_read() {
    let mut bad_id = ID_TAG;
    bad_id[0] = b'X';
    let mut sim = Sim::new(&bad_id, 64, 64, 20);
    sim.poll_answers = vec![(0, Some(CoreState::Halted))];
    let mut extractor = Extractor::new(0, 0);
    let result = sim.run(&mut extractor);
    assert_eq!(
        result.unwrap_err(),
        ProbeError::Protocol(ProtocolViolation::MalformedControlBlock)
    );
    // No action ever touched the ring buffer at addresses 64 and up.
    for line in &sim.actions {
        if let Some(rest) = line.strip_prefix("read core 0 at ") {
            let address: u64 = rest.split_whitespace().next().unwrap().parse().unwrap();
            assert!(address < 64, "buffer read after id mismatch: {line}");
        }
    }
}

#[test]
fn wrapped_write_index_drains_end_then_start() {
    // First drain takes bytes 0..20; then the firmware wraps around to
    // write index 10, so the second drain reads the tail 20..64 and the
    // refilled head 0..10 — in that order.
    let mut sim = Sim::new(&ID_TAG, 64, 64, 20);
    sim.poll_answers = vec![
        (0, Some(CoreState::Halted)),  // startup: trigger hit
        (0, Some(CoreState::Running)), // keep draining
        (0, Some(CoreState::Halted)),  // halt after the wrapped drain
    ];
    sim.write_index_schedule = vec![None, Some(10), None];
    let mut extractor = Extractor::new(0, 0);
    let _ = sim.run(&mut extractor).unwrap();
    let mut expected: Vec<u8> = (0u8..20).collect(); // first drain
    expected.extend(20u8..64); // wrapped drain, end of the buffer first
    expected.extend(0u8..10); // then the head
    assert_eq!(sim.published, expected);
    // The host read index caught up with the wrapped write index.
    assert_eq!(&sim.memory[40..44], &10u32.to_le_bytes());
}

#[test]
fn out_of_bounds_write_index_aborts_the_session() {
    let mut sim = Sim::new(&ID_TAG, 64, 64, 20);
    sim.poll_answers = vec![(0, Some(CoreState::Halted))];
    // After attach the device write index jumps beyond the buffer size.
    sim.memory[36..40].copy_from_slice(&200u32.to_le_bytes());
    let mut extractor = Extractor::new(0, 0);
    let result = sim.run(&mut extractor);
    assert_eq!(
        result.unwrap_err(),
        ProbeError::Protocol(ProtocolViolation::WriteIndexOutOfBounds)
    );
}

#[test]
fn primary_halt_wins_while_secondary_keeps_running() {
    let mut sim = Sim::new(&ID_TAG, 64, 64, 0);
    // Startup: trigger hit.  Round-robin: primary running, secondary
    // running (via tolerated reset event), primary halted.  The secondary
    // core is never consulted again after the primary halt.
    sim.poll_answers = vec![
        (0, Some(CoreState::Halted)),
        (0, Some(CoreState::Running)),
        (1, None),
        (0, Some(CoreState::Halted)),
    ];
    let mut extractor = Extractor::new(0, 1);
    let halt = sim.run(&mut extractor).unwrap();
    let HaltReason::DebugHit(trace) = halt;
    assert_eq!(trace.current_pc, 0x9000_0000);
    assert_eq!(trace.current_upper.a11, 0x9000_0010);
    // All poll answers were consumed, and the last one polled the primary.
    assert!(sim.poll_answers.is_empty());
    assert_eq!(sim.polls.last(), Some(&0));
    // After the primary halt, the only actions touch core 0.
    let halt_at = sim
        .actions
        .iter()
        .position(|line| line == "grace delay for core 0")
        .unwrap();
    for line in &sim.actions[halt_at..] {
        assert!(!line.contains("core 1"), "secondary consulted after halt: {line}");
    }
    assert_eq!(sim.actions.last().unwrap(), "unwind core 0");
}

#[test]
fn startup_resets_all_cores_then_arms_the_trigger() {
    let mut sim = Sim::new(&ID_TAG, 64, 64, 0);
    sim.poll_answers = vec![(0, Some(CoreState::Halted)), (0, Some(CoreState::Halted))];
    let mut extractor = Extractor::new(0, 2);
    let _ = sim.run(&mut extractor).unwrap();
    assert_eq!(sim.actions[0], "reset primary");
    assert_eq!(sim.actions[1], "reset secondary 1");
    assert_eq!(sim.actions[2], "reset secondary 2");
    // The write trigger watches the device write index at offset 36.
    assert_eq!(sim.actions[3], "arm trigger at 36");
}

#[test]
fn trigger_poll_repeats_while_the_core_runs() {
    let mut sim = Sim::new(&ID_TAG, 64, 64, 0);
    sim.poll_answers = vec![
        (0, Some(CoreState::Running)),
        (0, Some(CoreState::Running)),
        (0, Some(CoreState::Debug)),
        (0, Some(CoreState::Halted)),
    ];
    let mut extractor = Extractor::new(0, 0);
    let _ = sim.run(&mut extractor).unwrap();
    // Three startup polls before the trigger hit was seen.
    assert_eq!(sim.polls[0..3], [0, 0, 0]);
}

#[test]
fn oversized_descriptor_is_rejected() {
    let mut sim = Sim::new(&ID_TAG, 64, 64, 0);
    sim.poll_answers = vec![(0, Some(CoreState::Halted))];
    // A buffer whose start address plus size overflows 32 bits.
    sim.memory[28..32].copy_from_slice(&0xFFFF_FFF0u32.to_le_bytes());
    sim.memory[32..36].copy_from_slice(&0x100u32.to_le_bytes());
    let mut extractor = Extractor::new(0, 0);
    // Drive manually: the descriptor read must end the session.
    let mut event = Event::Started;
    let result = loop {
        match extractor.step(event) {
            Ok(Step::Continue(action)) => event = sim.perform(action),
            Ok(Step::Finished(_)) => panic!("session finished on a bad descriptor"),
            Err(e) => break e,
        }
    };
    assert_eq!(result, ProbeError::Protocol(ProtocolViolation::BufferDescriptorTooLarge));
}
