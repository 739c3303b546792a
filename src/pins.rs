use vstd::prelude::*;

use crate::pull::{pull_at, pull_field, to_dyn_pull_type, PullType};

verus! {

/// The number of GPIO numbers that the pin table covers (GPIO 0 to 28).
pub const GPIO_COUNT: usize = 29;

/// The number of pins of group A (GPIO 0 to 15, field `i` drives GPIO `i`).
pub const GROUP_A_LEN: usize = 16;

/// The first GPIO of group B: field `k` of the group B word drives GPIO `16 + k`.
pub const GROUP_B_BASE: usize = 16;

/// Whether a GPIO belongs to group A.
pub open spec fn in_group_a(gpio: int) -> bool {
    0 <= gpio < 16
}

/// Whether a GPIO belongs to group B. GPIO 23 to 25 are not general purpose,
/// so fields 7 to 9 of the group B word drive nothing.
pub open spec fn in_group_b(gpio: int) -> bool {
    (16 <= gpio <= 22) || (26 <= gpio <= 28)
}

/// Whether the firmware drives a GPIO at all.
pub open spec fn is_controlled(gpio: int) -> bool {
    in_group_a(gpio) || in_group_b(gpio)
}

/// The pull modes after applying the group A word `w`.
pub open spec fn after_pull_a(pulls: Seq<PullType>, w: u32) -> Seq<PullType> {
    Seq::new(pulls.len(), |i: int| if in_group_a(i) { pull_at(w, i as u32) } else { pulls[i] })
}

/// The pull modes after applying the group B word `w`.
pub open spec fn after_pull_b(pulls: Seq<PullType>, w: u32) -> Seq<PullType> {
    Seq::new(
        pulls.len(),
        |i: int| if in_group_b(i) { pull_at(w, (i - 16) as u32) } else { pulls[i] },
    )
}

/// The pull resistor configuration of every GPIO, indexed by GPIO number.
/// The hardware layer copies the mode of each controlled GPIO onto its pad.
pub struct Pins {
    pulls: Vec<PullType>,
}

impl View for Pins {
    type V = Seq<PullType>;

    closed spec fn view(&self) -> Seq<PullType> {
        self.pulls@
    }
}

impl Pins {
    pub open spec fn wf(&self) -> bool {
        self@.len() == GPIO_COUNT
    }

    /// All GPIOs without pull, as a pull word of zero describes them.
    pub fn new() -> (r: Pins)
        ensures
            r.wf(),
            forall|i: int| 0 <= i < GPIO_COUNT ==> r@[i] == PullType::Floating,
    {
        let mut pulls: Vec<PullType> = Vec::new();
        let mut i: usize = 0;
        while i < GPIO_COUNT
            invariant
                i <= GPIO_COUNT,
                pulls@.len() == i,
                forall|j: int| 0 <= j < i ==> pulls@[j] == PullType::Floating,
            decreases GPIO_COUNT - i,
        {
            pulls.push(PullType::Floating);
            i = i + 1;
        }
        Pins { pulls }
    }

    /// The pull mode of one GPIO.
    pub fn pull(&self, gpio: usize) -> (r: PullType)
        requires
            self.wf(),
            gpio < GPIO_COUNT,
        ensures
            r == self@[gpio as int],
    {
        self.pulls[gpio]
    }

    /// Applies the group A pull word: GPIO `i` (for `i < 16`) takes the mode of field `i`.
    pub fn update_pull_0(&mut self, pull_0: u32)
        requires
            old(self).wf(),
        ensures
            final(self).wf(),
            final(self)@ == after_pull_a(old(self)@, pull_0),
    {
        let mut i: usize = 0;
        while i < GROUP_A_LEN
            invariant
                i <= GROUP_A_LEN,
                self.pulls@.len() == GPIO_COUNT,
                old(self).pulls@.len() == GPIO_COUNT,
                forall|j: int|
                    0 <= j < GPIO_COUNT ==> self.pulls@[j] == if j < i {
                        pull_at(pull_0, j as u32)
                    } else {
                        old(self).pulls@[j]
                    },
            decreases GROUP_A_LEN - i,
        {
            let p = to_dyn_pull_type(pull_0, i);
            self.pulls.set(i, p);
            i = i + 1;
        }
        assert(self@ =~= after_pull_a(old(self)@, pull_0));
    }

    /// Applies the group B pull word: GPIO `16 + k` takes the mode of field `k`
    /// for `k` in 0 to 6 and 10 to 12; fields 7 to 9 are left unused.
    pub fn update_pull_1(&mut self, pull_1: u32)
        requires
            old(self).wf(),
        ensures
            final(self).wf(),
            final(self)@ == after_pull_b(old(self)@, pull_1),
    {
        let mut k: usize = 0;
        while k < GPIO_COUNT - GROUP_B_BASE
            invariant
                k <= GPIO_COUNT - GROUP_B_BASE,
                self.pulls@.len() == GPIO_COUNT,
                old(self).pulls@.len() == GPIO_COUNT,
                forall|j: int|
                    0 <= j < GPIO_COUNT ==> self.pulls@[j] == if in_group_b(j) && j
                        < GROUP_B_BASE + k {
                        pull_at(pull_1, (j - 16) as u32)
                    } else {
                        old(self).pulls@[j]
                    },
            decreases GPIO_COUNT - GROUP_B_BASE - k,
        {
            if k < 7 || k >= 10 {
                let p = to_dyn_pull_type(pull_1, k);
                self.pulls.set(GROUP_B_BASE + k, p);
            }
            k = k + 1;
        }
        assert(self@ =~= after_pull_b(old(self)@, pull_1));
    }
}

/// Applying a group's pull word a second time changes nothing.
pub proof fn lemma_pull_update_idempotent(pulls: Seq<PullType>, w: u32)
    ensures
        after_pull_a(after_pull_a(pulls, w), w) == after_pull_a(pulls, w),
        after_pull_b(after_pull_b(pulls, w), w) == after_pull_b(pulls, w),
{
    assert(after_pull_a(after_pull_a(pulls, w), w) =~= after_pull_a(pulls, w));
    assert(after_pull_b(after_pull_b(pulls, w), w) =~= after_pull_b(pulls, w));
}

/// Mask of the group B word without the unused fields 7 to 9 (bits 14 to 19).
pub const GROUP_B_USED_MASK: u32 = 0xFFF0_3FFF;

/// Two group B words that differ only in the unused fields 7 to 9 (bits 14 to 19)
/// give the same pull modes on every GPIO.
pub proof fn lemma_unused_group_b_bits_ignored(pulls: Seq<PullType>, w1: u32, w2: u32)
    requires
        w1 & GROUP_B_USED_MASK == w2 & GROUP_B_USED_MASK,
    ensures
        after_pull_b(pulls, w1) == after_pull_b(pulls, w2),
{
    assert forall|i: int| 0 <= i < pulls.len() && in_group_b(i) implies pull_at(w1, (i - 16) as u32)
        == pull_at(w2, (i - 16) as u32) by {
        let f = (i - 16) as u32;
        assert(pull_field(w1, f) == pull_field(w2, f)) by (bit_vector)
            requires
                w1 & 0xFFF0_3FFFu32 == w2 & 0xFFF0_3FFFu32,
                f < 13,
                f < 7 || f > 9,
        ;
    }
    assert(after_pull_b(pulls, w1) =~= after_pull_b(pulls, w2));
}

} // verus!
