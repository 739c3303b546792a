use vstd::prelude::*;

use crate::report::{output_report_of, InputReport, OutputReport, OUTPUT_REPORT_LEN};

verus! {

/// The logical pin state: direction (bit `i` set: pin `i` drives), output
/// levels, sampled input levels and the two pull words of groups A and B.
#[derive(Clone, Copy, Debug, PartialEq, Eq, Structural)]
pub struct State {
    pub direction: u32,
    pub pull_0: u32,
    pub pull_1: u32,
    pub output: u32,
    pub input: u32,
}

impl Default for State {
    /// The state at boot: every word zero.
    fn default() -> (r: State)
        ensures
            r == State::zero(),
    {
        State { direction: 0, pull_0: 0, pull_1: 0, output: 0, input: 0 }
    }
}

impl State {
    pub open spec fn zero() -> State {
        State { direction: 0, pull_0: 0, pull_1: 0, output: 0, input: 0 }
    }

    /// The state after an Output Report: every word but `input` taken from it.
    pub open spec fn applied(self, r: OutputReport) -> State {
        State {
            direction: r.direction,
            pull_0: r.pull_0,
            pull_1: r.pull_1,
            output: r.output,
            input: self.input,
        }
    }

    /// Which pull groups an Output Report changes: (group A, group B).
    pub open spec fn pull_changes(self, r: OutputReport) -> (bool, bool) {
        (self.pull_0 != r.pull_0, self.pull_1 != r.pull_1)
    }

    /// Takes direction, output and both pull words from an Output Report and
    /// returns whether the pull word of group A and of group B changed.
    pub fn update_output(&mut self, output_report: &OutputReport) -> (r: (bool, bool))
        ensures
            *final(self) == old(self).applied(*output_report),
            r == old(self).pull_changes(*output_report),
    {
        self.direction = output_report.direction;
        self.output = output_report.output;

        let new_pull_0 = output_report.pull_0;
        let is_0_changed = self.pull_0 != new_pull_0;
        self.pull_0 = new_pull_0;

        let new_pull_1 = output_report.pull_1;
        let is_1_changed = self.pull_1 != new_pull_1;
        self.pull_1 = new_pull_1;

        (is_0_changed, is_1_changed)
    }

    /// Applies a received packet. A packet too short for an Output Report
    /// leaves the state as it is and reports no change.
    pub fn update_from_packet(&mut self, packet: &[u8]) -> (r: (bool, bool))
        ensures
            packet@.len() < OUTPUT_REPORT_LEN ==> *final(self) == *old(self) && r == (false, false),
            packet@.len() >= OUTPUT_REPORT_LEN ==> *final(self) == old(self).applied(
                output_report_of(packet@),
            ) && r == old(self).pull_changes(output_report_of(packet@)),
    {
        match OutputReport::ref_from(packet) {
            Some(report) => self.update_output(&report),
            None => (false, false),
        }
    }

    /// The Input Report of the current input sample.
    pub fn input_report(&self) -> (r: InputReport)
        ensures
            r.input == self.input,
    {
        InputReport { input: self.input }
    }
}

/// When two Output Reports carry the same pull word of a group, applying the
/// second after the first asks for no reconfiguration of that group.
pub proof fn lemma_same_pull_word_no_reconfigure(s: State, r1: OutputReport, r2: OutputReport)
    ensures
        r1.pull_0 == r2.pull_0 ==> !s.applied(r1).pull_changes(r2).0,
        r1.pull_1 == r2.pull_1 ==> !s.applied(r1).pull_changes(r2).1,
{
}

} // verus!
