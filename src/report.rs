use vstd::prelude::*;

verus! {

/// The byte size of an Output Report on the wire.
pub const OUTPUT_REPORT_LEN: usize = 16;

/// The byte size of an Input Report on the wire.
pub const INPUT_REPORT_LEN: usize = 4;

/// The 32-bit word whose little-endian bytes are `b0` (lowest) to `b3`.
pub open spec fn le_word(b0: u8, b1: u8, b2: u8, b3: u8) -> u32 {
    (b0 as u32) | ((b1 as u32) << 8u32) | ((b2 as u32) << 16u32) | ((b3 as u32) << 24u32)
}

/// The little-endian word stored at byte offset `off` of `b`.
pub open spec fn word_at(b: Seq<u8>, off: int) -> u32 {
    le_word(b[off], b[off + 1], b[off + 2], b[off + 3])
}

/// A host-to-device report: direction, pull word of group A, pull word of
/// group B and output levels, each a little-endian 32-bit word, in that order.
#[derive(Clone, Copy, Debug, PartialEq, Eq, Structural)]
pub struct OutputReport {
    pub direction: u32,
    pub pull_0: u32,
    pub pull_1: u32,
    pub output: u32,
}

/// A device-to-host report: the sampled input levels as one little-endian word.
#[derive(Clone, Copy, Debug, PartialEq, Eq, Structural)]
pub struct InputReport {
    pub input: u32,
}

/// The Output Report that the first sixteen bytes of `b` hold.
pub open spec fn output_report_of(b: Seq<u8>) -> OutputReport {
    OutputReport {
        direction: word_at(b, 0),
        pull_0: word_at(b, 4),
        pull_1: word_at(b, 8),
        output: word_at(b, 12),
    }
}

fn read_word(b: &[u8], off: usize) -> (r: u32)
    requires
        off + 4 <= b@.len(),
    ensures
        r == word_at(b@, off as int),
{
    (b[off] as u32) | ((b[off + 1] as u32) << 8u32) | ((b[off + 2] as u32) << 16u32) | ((
    b[off + 3] as u32) << 24u32)
}

impl OutputReport {
    /// Reads an Output Report from a received packet. A packet shorter than
    /// the report is rejected; bytes past the report are ignored.
    pub fn ref_from(b: &[u8]) -> (r: Option<OutputReport>)
        ensures
            b@.len() < OUTPUT_REPORT_LEN ==> r.is_none(),
            b@.len() >= OUTPUT_REPORT_LEN ==> r == Some(output_report_of(b@)),
    {
        if b.len() < OUTPUT_REPORT_LEN {
            None
        } else {
            Some(
                OutputReport {
                    direction: read_word(b, 0),
                    pull_0: read_word(b, 4),
                    pull_1: read_word(b, 8),
                    output: read_word(b, 12),
                },
            )
        }
    }
}

impl InputReport {
    /// The report's wire bytes: the input word, least significant byte first.
    pub fn as_bytes(&self) -> (r: [u8; 4])
        ensures
            r@.len() == INPUT_REPORT_LEN,
            word_at(r@, 0) == self.input,
    {
        let x = self.input;
        let r: [u8; 4] = [
            (x & 0xff) as u8,
            ((x >> 8u32) & 0xff) as u8,
            ((x >> 16u32) & 0xff) as u8,
            ((x >> 24u32) & 0xff) as u8,
        ];
        assert(le_word(
            (x & 0xff) as u8,
            ((x >> 8u32) & 0xff) as u8,
            ((x >> 16u32) & 0xff) as u8,
            ((x >> 24u32) & 0xff) as u8,
        ) == x) by (bit_vector);
        r
    }
}

} // verus!
