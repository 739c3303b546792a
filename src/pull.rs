use vstd::prelude::*;

verus! {

/// The pull resistor mode of one pin.
#[derive(Clone, Copy, Debug, PartialEq, Eq, Structural)]
pub enum PullType {
    Floating,
    Up,
    Down,
    BusKeep,
}

/// The 2-bit pull code at field `n` of a pull word (bit offset `2 * n`).
pub open spec fn pull_field(w: u32, n: u32) -> u32 {
    (w >> (2 * n)) & 3u32
}

/// The pull mode that a 2-bit code stands for.
pub open spec fn pull_of_code(c: u32) -> PullType {
    if c == 0 {
        PullType::Floating
    } else if c == 1 {
        PullType::Up
    } else if c == 2 {
        PullType::Down
    } else {
        PullType::BusKeep
    }
}

/// The 2-bit code of a pull mode.
pub open spec fn code_of_pull(p: PullType) -> u32 {
    match p {
        PullType::Floating => 0,
        PullType::Up => 1,
        PullType::Down => 2,
        PullType::BusKeep => 3,
    }
}

/// The pull mode held by field `n` of a pull word.
pub open spec fn pull_at(w: u32, n: u32) -> PullType {
    pull_of_code(pull_field(w, n))
}

/// Decodes the pull mode of field `n` of the pull word `bits`.
pub fn to_dyn_pull_type(bits: u32, n: usize) -> (r: PullType)
    requires
        n < 16,
    ensures
        r == pull_at(bits, n as u32),
{
    let s: u32 = (n as u32) * 2;
    let c: u32 = (bits >> s) & 3u32;
    if c == 0 {
        PullType::Floating
    } else if c == 1 {
        PullType::Up
    } else if c == 2 {
        PullType::Down
    } else {
        PullType::BusKeep
    }
}

/// Encodes a pull mode into field `n` of an otherwise zero pull word.
pub fn encode_pull(p: PullType, n: usize) -> (r: u32)
    requires
        n < 16,
    ensures
        r == code_of_pull(p) << (2 * n as u32),
{
    let c: u32 = match p {
        PullType::Floating => 0,
        PullType::Up => 1,
        PullType::Down => 2,
        PullType::BusKeep => 3,
    };
    c << ((n as u32) * 2)
}

/// Decoding the pull code of field `n` of any word and encoding it again into
/// a zero word at the same field gives back exactly the two bits of that field.
pub proof fn lemma_pull_field_round_trip(w: u32, n: u32)
    requires
        n < 16,
    ensures
        code_of_pull(pull_at(w, n)) << (2 * n) == w & (3u32 << (2 * n)),
{
    let c = pull_field(w, n);
    assert(c <= 3) by (bit_vector)
        requires
            c == (w >> (2 * n)) & 3u32,
    ;
    assert(code_of_pull(pull_of_code(c)) == c);
    assert(((w >> (2 * n)) & 3u32) << (2 * n) == w & (3u32 << (2 * n))) by (bit_vector)
        requires
            n < 16,
    ;
}

} // verus!
