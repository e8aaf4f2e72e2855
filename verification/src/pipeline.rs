//! The decisions of the sampling loop: what each event of the monitor's
//! stream does to the latest sample, and what is to be done next.

use crate::radeontop::RadeontopDataDump;
use vstd::prelude::*;

verus! {

/// Where the sampling stands.
#[derive(Debug, Clone, Copy, PartialEq, Eq, Structural)]
pub enum Phase {
    /// The monitor has not been started yet.
    Starting,
    /// Lines are being read.
    Streaming,
    /// A fault has ended the sampling for good.
    Terminated,
}

/// Why the sampling ended.
#[derive(Debug, Clone, Copy, PartialEq, Eq, Structural)]
pub enum Fault {
    /// The monitor could not be started.
    Launch,
    /// A line was no sample.
    Parse,
    /// The monitor's output has ended.
    StreamEnd,
}

/// What happened outside.
#[derive(Debug, Clone, Copy, PartialEq, Eq, Structural)]
pub enum Event {
    /// The monitor runs.
    Launched,
    /// The monitor could not be started.
    LaunchFailed,
    /// A line was read and held this sample.
    Sample(RadeontopDataDump),
    /// A line was read and held no sample.
    Malformed,
    /// There are no more lines.
    StreamEnded,
}

/// What to do next.
#[derive(Debug, Clone, Copy, PartialEq, Eq, Structural)]
pub enum Action {
    /// Read the next line.
    Read,
    /// Tell the scheduler that the segment with this id has new data, then
    /// read the next line.
    Notify(usize),
    /// Give up with this fault.
    Fail(Fault),
    /// Nothing: the event does not belong to this phase.
    Ignore,
}

/// The phase after an event.
pub open spec fn next_phase(phase: Phase, event: Event) -> Phase {
    match (phase, event) {
        (Phase::Starting, Event::Launched) => Phase::Streaming,
        (Phase::Starting, Event::LaunchFailed) => Phase::Terminated,
        (Phase::Streaming, Event::Sample(_)) => Phase::Streaming,
        (Phase::Streaming, Event::Malformed) => Phase::Terminated,
        (Phase::Streaming, Event::StreamEnded) => Phase::Terminated,
        _ => phase,
    }
}

/// The latest sample after an event: a sample read while streaming takes the
/// place of the one before it, and nothing else touches it.
pub open spec fn next_slot(phase: Phase, slot: Option<RadeontopDataDump>, event: Event) -> Option<
    RadeontopDataDump,
> {
    match (phase, event) {
        (Phase::Streaming, Event::Sample(sample)) => Some(sample),
        _ => slot,
    }
}

/// What an event asks for, for the segment with the given id.
pub open spec fn next_action(phase: Phase, id: usize, event: Event) -> Action {
    match (phase, event) {
        (Phase::Starting, Event::Launched) => Action::Read,
        (Phase::Starting, Event::LaunchFailed) => Action::Fail(Fault::Launch),
        (Phase::Streaming, Event::Sample(_)) => Action::Notify(id),
        (Phase::Streaming, Event::Malformed) => Action::Fail(Fault::Parse),
        (Phase::Streaming, Event::StreamEnded) => Action::Fail(Fault::StreamEnd),
        _ => Action::Ignore,
    }
}

/// The sampling of one segment.
#[derive(Debug, Clone, Copy, PartialEq, Eq, Structural)]
pub struct Sampler {
    pub id: usize,
    pub phase: Phase,
}

impl Sampler {
    /// The sampling of the segment with the given id, before the monitor is
    /// started.
    pub fn new(id: usize) -> (sampler: Sampler)
        ensures
            sampler == (Sampler { id, phase: Phase::Starting }),
    {
        Sampler { id, phase: Phase::Starting }
    }

    /// Takes one event: moves to the next phase, stores a sample that was
    /// read, and says what to do next. No fault is recovered from, and none
    /// touches the sample that is stored.
    pub fn step(&mut self, slot: &mut Option<RadeontopDataDump>, event: Event) -> (action: Action)
        ensures
            final(self).id == old(self).id,
            final(self).phase == next_phase(old(self).phase, event),
            *final(slot) == next_slot(old(self).phase, *old(slot), event),
            action == next_action(old(self).phase, old(self).id, event),
    {
        match self.phase {
            Phase::Starting => match event {
                Event::Launched => {
                    self.phase = Phase::Streaming;
                    Action::Read
                },
                Event::LaunchFailed => {
                    self.phase = Phase::Terminated;
                    Action::Fail(Fault::Launch)
                },
                _ => Action::Ignore,
            },
            Phase::Streaming => match event {
                Event::Sample(sample) => {
                    *slot = Some(sample);
                    Action::Notify(self.id)
                },
                Event::Malformed => {
                    self.phase = Phase::Terminated;
                    Action::Fail(Fault::Parse)
                },
                Event::StreamEnded => {
                    self.phase = Phase::Terminated;
                    Action::Fail(Fault::StreamEnd)
                },
                _ => Action::Ignore,
            },
            Phase::Terminated => Action::Ignore,
        }
    }
}

/// A line that holds no sample ends the sampling and leaves the sample that
/// is stored as it was; so does the end of the stream, and so does every
/// event after the sampling has ended.
pub proof fn lemma_fault_keeps_sample(phase: Phase, slot: Option<RadeontopDataDump>, event: Event)
    requires
        event == Event::Malformed || event == Event::StreamEnded || event == Event::LaunchFailed
            || phase == Phase::Terminated,
    ensures
        next_slot(phase, slot, event) == slot,
        phase == Phase::Streaming && event == Event::Malformed ==> next_phase(phase, event)
            == Phase::Terminated,
        phase == Phase::Terminated ==> next_phase(phase, event) == Phase::Terminated,
{
}

/// The sample that is stored is always the last one that was read while
/// streaming: a new one takes the whole place of the old one.
pub proof fn lemma_latest_wins(
    slot: Option<RadeontopDataDump>,
    first: RadeontopDataDump,
    second: RadeontopDataDump,
)
    ensures
        next_slot(
            Phase::Streaming,
            next_slot(Phase::Streaming, slot, Event::Sample(first)),
            Event::Sample(second),
        ) == Some(second),
{
}

} // verus!
