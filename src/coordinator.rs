use vstd::prelude::*;

use crate::pins::{after_pull_a, after_pull_b, in_group_a, in_group_b, Pins, GPIO_COUNT};
use crate::pull::{pull_at, pull_field, PullType};
use crate::report::{output_report_of, InputReport, OUTPUT_REPORT_LEN};
use crate::state::State;

verus! {

/// Where the control loop stands within one iteration.
#[derive(Clone, Copy, Debug, PartialEq, Eq, Structural)]
pub enum Phase {
    /// The direction word waits to enter the sequencer's queue.
    SendDirection,
    /// The output word waits to enter the sequencer's queue.
    SendOutput,
    /// The sample taken after the last word pair is awaited.
    ReceiveInput,
    /// The USB device is polled for an Output Report.
    Exchange,
    /// The pull groups flagged are reprogrammed and the Input Report is queued.
    Publish { reconfigure_a: bool, reconfigure_b: bool },
}

/// What the hardware layer is asked to do next.
#[derive(Clone, Copy, Debug, PartialEq, Eq, Structural)]
pub enum Action {
    /// Offer this word to the sequencer's queue once.
    Send(u32),
    /// Try once to take a sample from the sequencer.
    Receive,
    /// Poll the USB device and hand back the Output Report packet, if any came.
    Exchange,
    /// Copy the pull modes of each flagged group onto its pins, then queue the report.
    Publish { reconfigure_a: bool, reconfigure_b: bool, report: InputReport },
}

/// What the hardware layer reports back after an action.
#[derive(Debug)]
pub enum Event {
    /// Whether the sequencer's queue accepted the word.
    Sent(bool),
    /// The sample, if the sequencer had one.
    Received(Option<u32>),
    /// The bytes of a packet that the host sent, if any.
    HostPacket(Option<Vec<u8>>),
    /// The pulls were reprogrammed and the Input Report queued.
    Published,
}

/// Whether the pull modes of all controlled GPIOs are those of the state's pull words.
pub open spec fn pins_match(pulls: Seq<PullType>, s: State) -> bool {
    &&& pulls.len() == GPIO_COUNT
    &&& forall|i: int| in_group_a(i) ==> pulls[i] == pull_at(s.pull_0, i as u32)
    &&& forall|i: int| in_group_b(i) ==> pulls[i] == pull_at(s.pull_1, (i - 16) as u32)
}

/// The phase and state that follow an event. An event that does not answer
/// the current phase's action changes nothing.
pub open spec fn next(ph: Phase, s: State, ev: &Event) -> (Phase, State) {
    match (ph, ev) {
        (Phase::SendDirection, Event::Sent(true)) => (Phase::SendOutput, s),
        (Phase::SendOutput, Event::Sent(true)) => (Phase::ReceiveInput, s),
        (Phase::ReceiveInput, Event::Received(Some(v))) => (
            Phase::Exchange,
            State { input: *v, ..s },
        ),
        (Phase::Exchange, Event::HostPacket(Some(p))) => if p@.len() >= OUTPUT_REPORT_LEN {
            let rep = output_report_of(p@);
            (
                Phase::Publish {
                    reconfigure_a: s.pull_changes(rep).0,
                    reconfigure_b: s.pull_changes(rep).1,
                },
                s.applied(rep),
            )
        } else {
            (Phase::Publish { reconfigure_a: false, reconfigure_b: false }, s)
        },
        (Phase::Exchange, Event::HostPacket(None)) => (
            Phase::Publish { reconfigure_a: false, reconfigure_b: false },
            s,
        ),
        (Phase::Publish { .. }, Event::Published) => (Phase::SendDirection, s),
        _ => (ph, s),
    }
}

/// The pull modes after the groups that a publish phase flags were reprogrammed.
pub open spec fn reconfigured(pulls: Seq<PullType>, ph: Phase, s: State) -> Seq<PullType> {
    match ph {
        Phase::Publish { reconfigure_a, reconfigure_b } => {
            let p1 = if reconfigure_a {
                after_pull_a(pulls, s.pull_0)
            } else {
                pulls
            };
            if reconfigure_b {
                after_pull_b(p1, s.pull_1)
            } else {
                p1
            }
        },
        _ => pulls,
    }
}

/// The action that a phase asks for.
pub open spec fn action_of(ph: Phase, s: State) -> Action {
    match ph {
        Phase::SendDirection => Action::Send(s.direction),
        Phase::SendOutput => Action::Send(s.output),
        Phase::ReceiveInput => Action::Receive,
        Phase::Exchange => Action::Exchange,
        Phase::Publish { reconfigure_a, reconfigure_b } => Action::Publish {
            reconfigure_a,
            reconfigure_b,
            report: InputReport { input: s.input },
        },
    }
}

/// The decisions of the control loop: the logical state, the pull modes of the
/// pins, and where the loop stands. `sent` records every (direction, output)
/// pair that the sequencer accepted, in order; `sampled_after` is how many
/// pairs had been accepted when the current input was sampled.
pub struct Coordinator {
    pub state: State,
    pub pins: Pins,
    pub phase: Phase,
    pub sent: Ghost<Seq<(u32, u32)>>,
    pub sampled_after: Ghost<nat>,
}

impl Coordinator {
    pub open spec fn wf(&self) -> bool {
        &&& self.pins.wf()
        &&& pins_match(self.pins@, self.state)
        &&& self.sampled_after@ <= self.sent@.len()
        &&& (self.phase == Phase::ReceiveInput || self.phase == Phase::Exchange) ==> {
            &&& self.sent@.len() > 0
            &&& self.sent@.last() == (self.state.direction, self.state.output)
        }
        &&& (self.phase == Phase::Exchange || self.phase is Publish) ==> self.sampled_after@
            == self.sent@.len()
    }

    /// The loop at boot: all words zero, no pulls, the direction word due first.
    pub fn new() -> (r: Coordinator)
        ensures
            r.wf(),
            r.state == State::zero(),
            r.phase == Phase::SendDirection,
            r.sent@ == Seq::<(u32, u32)>::empty(),
    {
        let pins = Pins::new();
        let state = State { direction: 0, pull_0: 0, pull_1: 0, output: 0, input: 0 };
        assert forall|n: u32| pull_field(0, n) == 0 by {
            assert((0u32 >> (2 * n)) & 3u32 == 0) by (bit_vector);
        }
        Coordinator {
            state,
            pins,
            phase: Phase::SendDirection,
            sent: Ghost(Seq::empty()),
            sampled_after: Ghost(0),
        }
    }

    /// The action that the current phase asks for.
    pub fn action(&self) -> (r: Action)
        ensures
            r == action_of(self.phase, self.state),
    {
        match self.phase {
            Phase::SendDirection => Action::Send(self.state.direction),
            Phase::SendOutput => Action::Send(self.state.output),
            Phase::ReceiveInput => Action::Receive,
            Phase::Exchange => Action::Exchange,
            Phase::Publish { reconfigure_a, reconfigure_b } => Action::Publish {
                reconfigure_a,
                reconfigure_b,
                report: self.state.input_report(),
            },
        }
    }

    /// Takes the outcome of the last action and returns the next action.
    pub fn step(&mut self, event: Event) -> (r: Action)
        requires
            old(self).wf(),
        ensures
            final(self).wf(),
            (final(self).phase, final(self).state) == next(
                old(self).phase,
                old(self).state,
                &event,
            ),
            final(self).pins@ == if old(self).phase == Phase::Exchange {
                reconfigured(old(self).pins@, final(self).phase, final(self).state)
            } else {
                old(self).pins@
            },
            final(self).sent@ == if old(self).phase == Phase::SendOutput && event == Event::Sent(
                true,
            ) {
                old(self).sent@.push((old(self).state.direction, old(self).state.output))
            } else {
                old(self).sent@
            },
            final(self).sampled_after@ == if old(self).phase == Phase::ReceiveInput && (
            event matches Event::Received(Some(_))) {
                final(self).sent@.len()
            } else {
                old(self).sampled_after@
            },
            r == action_of(final(self).phase, final(self).state),
    {
        match (self.phase, event) {
            (Phase::SendDirection, Event::Sent(true)) => {
                self.phase = Phase::SendOutput;
            },
            (Phase::SendOutput, Event::Sent(true)) => {
                self.sent = Ghost(self.sent@.push((self.state.direction, self.state.output)));
                self.phase = Phase::ReceiveInput;
            },
            (Phase::ReceiveInput, Event::Received(Some(v))) => {
                self.state.input = v;
                self.sampled_after = Ghost(self.sent@.len());
                self.phase = Phase::Exchange;
            },
            (Phase::Exchange, Event::HostPacket(packet)) => {
                let (a, b) = match packet {
                    Some(p) => self.state.update_from_packet(p.as_slice()),
                    None => (false, false),
                };
                if a {
                    self.pins.update_pull_0(self.state.pull_0);
                }
                if b {
                    self.pins.update_pull_1(self.state.pull_1);
                }
                self.phase = Phase::Publish { reconfigure_a: a, reconfigure_b: b };
            },
            (Phase::Publish { .. }, Event::Published) => {
                self.phase = Phase::SendDirection;
            },
            _ => {},
        }
        self.action()
    }
}

/// Whenever an Input Report is handed out, its sample was taken after the
/// sequencer accepted the most recent (direction, output) pair: no report
/// reflects an older pair.
pub proof fn lemma_published_input_is_fresh(c: &Coordinator)
    requires
        c.wf(),
        action_of(c.phase, c.state) is Publish,
    ensures
        c.sampled_after@ == c.sent@.len(),
{
}

} // verus!
