use ez_gpio::coordinator::{Action, Coordinator, Event, Phase};
use ez_gpio::pull::PullType;
use ez_gpio::report::InputReport;
use ez_gpio::state::State;

/// A stand-in for the pin sequencer with every pin looped back: driven pins
/// read their own output level, undriven pins read low, 30 lines are sampled.
struct Loopback {
    words: Vec<u32>,
    sample: Option<u32>,
    busy: u32,
}

impl Loopback {
    fn new() -> Loopback {
        Loopback { words: Vec::new(), sample: None, busy: 0 }
    }

    fn offer(&mut self, w: u32) -> bool {
        // refuse every third offer, as a full queue would
        self.busy += 1;
        if self.busy % 3 == 0 {
            return false;
        }
        self.words.push(w);
        if self.words.len() == 2 {
            let (d, o) = (self.words[0], self.words[1]);
            self.words.clear();
            self.sample = Some(d & o & 0x3FFF_FFFF);
        }
        true
    }

    fn take(&mut self) -> Option<u32> {
        self.busy += 1;
        if self.busy % 4 == 0 {
            return None;
        }
        self.sample.take()
    }
}

fn packet(direction: u32, pull_0: u32, pull_1: u32, output: u32) -> Vec<u8> {
    let mut v = Vec::new();
    v.extend_from_slice(&direction.to_le_bytes());
    v.extend_from_slice(&pull_0.to_le_bytes());
    v.extend_from_slice(&pull_1.to_le_bytes());
    v.extend_from_slice(&output.to_le_bytes());
    v
}

/// Runs one loop iteration; returns the published flags and report and the
/// (direction, output) pair that the sequencer last accepted.
fn iterate(
    c: &mut Coordinator,
    seq: &mut Loopback,
    host: Option<Vec<u8>>,
) -> (bool, bool, InputReport, (u32, u32)) {
    let mut host = Some(host);
    let mut action = c.action();
    let mut pair: (Vec<u32>, Option<(u32, u32)>) = (Vec::new(), None);
    loop {
        action = match action {
            Action::Send(w) => {
                let ok = seq.offer(w);
                if ok {
                    pair.0.push(w);
                    if pair.0.len() == 2 {
                        pair.1 = Some((pair.0[0], pair.0[1]));
                    }
                }
                c.step(Event::Sent(ok))
            }
            Action::Receive => {
                let s = seq.take();
                c.step(Event::Received(s))
            }
            Action::Exchange => c.step(Event::HostPacket(host.take().unwrap())),
            Action::Publish { reconfigure_a, reconfigure_b, report } => {
                c.step(Event::Published);
                return (reconfigure_a, reconfigure_b, report, pair.1.unwrap());
            }
        };
    }
}

#[test]
fn boots_asking_for_direction() {
    let c = Coordinator::new();
    assert_eq!(c.phase, Phase::SendDirection);
    assert_eq!(c.action(), Action::Send(0));
    assert_eq!(c.state, State::default());
}

#[test]
fn steps_in_order() {
    let mut c = Coordinator::new();
    assert_eq!(c.step(Event::Sent(false)), Action::Send(0));
    assert_eq!(c.step(Event::Sent(true)), Action::Send(0));
    assert_eq!(c.step(Event::Received(Some(1))), Action::Send(0));
    assert_eq!(c.step(Event::Sent(true)), Action::Receive);
    assert_eq!(c.step(Event::Received(None)), Action::Receive);
    assert_eq!(c.step(Event::Received(Some(9))), Action::Exchange);
    assert_eq!(
        c.step(Event::HostPacket(None)),
        Action::Publish { reconfigure_a: false, reconfigure_b: false, report: InputReport { input: 9 } }
    );
    assert_eq!(c.step(Event::Published), Action::Send(0));
}

#[test]
fn all_outputs_loop_back() {
    let mut c = Coordinator::new();
    let mut seq = Loopback::new();
    let (_, _, first, _) = iterate(&mut c, &mut seq, Some(packet(0xFFFF_FFFF, 0, 0, 0xAAAA_AAAA)));
    assert_eq!(first.input, 0);
    assert_eq!(c.state.direction, 0xFFFF_FFFF);
    assert_eq!(c.state.output, 0xAAAA_AAAA);
    let (_, _, second, pair) = iterate(&mut c, &mut seq, None);
    assert_eq!(pair, (0xFFFF_FFFF, 0xAAAA_AAAA));
    assert_eq!(second.input, 0x2AAA_AAAA);
    assert_eq!(second.as_bytes(), [0xAA, 0xAA, 0xAA, 0x2A]);
}

#[test]
fn pulls_reprogrammed_only_on_change() {
    let mut c = Coordinator::new();
    let mut seq = Loopback::new();
    let (a, b, _, _) = iterate(&mut c, &mut seq, Some(packet(0, 0, 0, 0)));
    assert_eq!((a, b), (false, false));
    let (a, b, _, _) = iterate(&mut c, &mut seq, Some(packet(0, 0x1, 0, 0)));
    assert_eq!((a, b), (true, false));
    assert_eq!(c.pins.pull(0), PullType::Up);
    let (a, b, _, _) = iterate(&mut c, &mut seq, Some(packet(7, 0x1, 0b10 << 24, 7)));
    assert_eq!((a, b), (false, true));
    assert_eq!(c.pins.pull(28), PullType::Down);
    let (a, b, _, _) = iterate(&mut c, &mut seq, Some(packet(7, 0x1, 0b10 << 24, 7)));
    assert_eq!((a, b), (false, false));
}

#[test]
fn short_packet_changes_nothing_in_loop() {
    let mut c = Coordinator::new();
    let mut seq = Loopback::new();
    iterate(&mut c, &mut seq, Some(packet(5, 5, 5, 5)));
    let before = c.state;
    let mut p = packet(1, 2, 3, 4);
    p.truncate(15);
    let (a, b, _, _) = iterate(&mut c, &mut seq, Some(p));
    assert_eq!((a, b), (false, false));
    assert_eq!(c.state.direction, before.direction);
    assert_eq!(c.state.pull_0, before.pull_0);
    assert_eq!(c.state.pull_1, before.pull_1);
    assert_eq!(c.state.output, before.output);
}

#[test]
fn published_input_never_older_than_last_pair() {
    let mut c = Coordinator::new();
    let mut seq = Loopback::new();
    let mut x: u32 = 0x1234_5678;
    for _ in 0..1000 {
        x = x.wrapping_mul(1_664_525).wrapping_add(1_013_904_223);
        let d = x.rotate_left(7);
        let o = x;
        let (_, _, report, pair) = iterate(&mut c, &mut seq, Some(packet(d, 0, 0, o)));
        assert_eq!(report.input, pair.0 & pair.1 & 0x3FFF_FFFF);
    }
}
