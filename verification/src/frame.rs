//! The framer: validation and splitting of a raw ROM byte buffer into
//! 16-bit big-endian instruction words.
//!
//! Each word is formed from two consecutive bytes, high byte first, taken in
//! original order and non-overlapping; the buffer must therefore be
//! non-empty and of even length.

use vstd::prelude::*;

verus! {

/// Why a ROM byte buffer cannot be framed into instruction words.
#[derive(Clone, Copy, Debug, PartialEq, Eq)]
pub enum ErrorKind {
    /// The byte buffer has zero length.
    EmptyInput,
    /// The byte buffer's length is not a multiple of two.
    OddLength,
}

impl ErrorKind {
    /// The human-readable message for this error kind.
    pub open spec fn spec_message(self) -> Seq<char> {
        match self {
            ErrorKind::EmptyInput => "Error parsing rom: empty rom"@,
            ErrorKind::OddLength => "Error parsing rom: uneven number of bytes"@,
        }
    }

    /// The human-readable message for this error kind, as shown to the user.
    pub fn message(&self) -> (r: &'static str)
        ensures
            r@ == self.spec_message(),
    {
        match self {
            ErrorKind::EmptyInput => "Error parsing rom: empty rom",
            ErrorKind::OddLength => "Error parsing rom: uneven number of bytes",
        }
    }
}

/// The instruction word formed from a pair of bytes, high byte first.
pub open spec fn spec_word(hi: u8, lo: u8) -> u16 {
    ((hi as u16) << 8) | (lo as u16)
}

/// The words of an even-length byte buffer: word `i` is formed from bytes
/// `2i` and `2i + 1`.
pub open spec fn spec_frame(bytes: Seq<u8>) -> Seq<u16> {
    Seq::new((bytes.len() / 2) as nat, |i: int| spec_word(bytes[2 * i], bytes[2 * i + 1]))
}

/// Validate a ROM byte buffer and split it into instruction words.
///
/// Fails with `EmptyInput` on a zero-length buffer and with `OddLength` on a
/// buffer whose length is not a multiple of two; on every other buffer it
/// succeeds, producing exactly `len / 2` words in original order.
pub fn frame(bytes: &Vec<u8>) -> (r: Result<Vec<u16>, ErrorKind>)
    ensures
        r is Err <==> (bytes@.len() == 0 || bytes@.len() % 2 != 0),
        bytes@.len() == 0 ==> r == Err::<Vec<u16>, ErrorKind>(ErrorKind::EmptyInput),
        bytes@.len() != 0 && bytes@.len() % 2 != 0 ==> r == Err::<Vec<u16>, ErrorKind>(
            ErrorKind::OddLength,
        ),
        r matches Ok(words) ==> words@ == spec_frame(bytes@),
{
    let n = bytes.len();
    if n == 0 {
        return Err(ErrorKind::EmptyInput);
    }
    if n % 2 != 0 {
        return Err(ErrorKind::OddLength);
    }
    let mut words: Vec<u16> = Vec::new();
    let mut i: usize = 0;
    while i < n
        invariant
            n == bytes@.len(),
            n % 2 == 0,
            i % 2 == 0,
            i <= n,
            words@.len() == i / 2,
            forall|j: int|
                0 <= j < words@.len() ==> words@[j] == spec_word(bytes@[2 * j], bytes@[2 * j + 1]),
        decreases n - i,
    {
        let hi = bytes[i];
        let lo = bytes[i + 1];
        let w = ((hi as u16) << 8) | (lo as u16);
        words.push(w);
        i = i + 2;
    }
    assert(words@ =~= spec_frame(bytes@));
    Ok(words)
}

/// Framing is a lossless re-grouping: a non-empty, even-length buffer frames
/// into exactly `len / 2` words, and splitting word `i` back into its high
/// and low bytes reproduces bytes `2i` and `2i + 1` of the buffer.
pub proof fn lemma_frame_round_trip(bytes: Seq<u8>)
    requires
        bytes.len() > 0,
        bytes.len() % 2 == 0,
    ensures
        spec_frame(bytes).len() == bytes.len() / 2,
        forall|i: int|
            0 <= i < spec_frame(bytes).len() ==> (#[trigger] spec_frame(bytes)[i] >> 8) as u8
                == bytes[2 * i] && (spec_frame(bytes)[i] & 0xFF) as u8 == bytes[2 * i + 1],
{
    assert forall|i: int| 0 <= i < spec_frame(bytes).len() implies (#[trigger] spec_frame(
        bytes,
    )[i] >> 8) as u8 == bytes[2 * i] && (spec_frame(bytes)[i] & 0xFF) as u8 == bytes[2 * i
        + 1] by {
        lemma_word_bytes(bytes[2 * i], bytes[2 * i + 1]);
    }
}

/// Splitting a word back into bytes inverts `spec_word`.
proof fn lemma_word_bytes(hi: u8, lo: u8)
    ensures
        (spec_word(hi, lo) >> 8) as u8 == hi,
        (spec_word(hi, lo) & 0xFF) as u8 == lo,
{
    assert(((((hi as u16) << 8) | (lo as u16)) >> 8) as u8 == hi && ((((hi as u16) << 8) | (
    lo as u16)) & 0xFF) as u8 == lo) by (bit_vector);
}

} // verus!
