//! A disassembler for the CHIP-8 instruction set.
//!
//! A ROM image is a sequence of 16-bit big-endian instruction words. The
//! framer splits the raw bytes into words, the decoder maps each word to its
//! mnemonic line, and `disassemble` runs the whole pipeline, joining the
//! lines with newlines.

pub mod config;
pub mod decode;
pub mod frame;
pub mod hex;

pub use config::Config;
pub use config::InputOption;
pub use config::OutputOption;
pub use config::RunError;
pub use decode::convert_instruction;
pub use frame::ErrorKind;
pub use frame::frame;

use vstd::prelude::*;

use crate::decode::spec_decode;
use crate::frame::spec_frame;

verus! {

/// The output document for a sequence of instruction words: the mnemonic
/// line of each word, in order, each followed by a newline (the final line
/// included).
pub open spec fn spec_render(words: Seq<u16>) -> Seq<char>
    decreases words.len(),
{
    if words.len() == 0 {
        Seq::<char>::empty()
    } else {
        spec_render(words.drop_last()) + spec_decode(words.last()) + seq!['\n']
    }
}

/// Disassemble a ROM byte buffer into its full output text: one mnemonic
/// line per instruction word, in original order, each line newline-
/// terminated.
///
/// Fails exactly when the framer does: with `EmptyInput` on a zero-length
/// buffer, and with `OddLength` on a buffer of odd length, before any word
/// is decoded.
pub fn disassemble(assembled_bytes: Vec<u8>) -> (r: Result<String, ErrorKind>)
    ensures
        r is Err <==> (assembled_bytes@.len() == 0 || assembled_bytes@.len() % 2 != 0),
        assembled_bytes@.len() == 0 ==> r == Err::<String, ErrorKind>(ErrorKind::EmptyInput),
        assembled_bytes@.len() != 0 && assembled_bytes@.len() % 2 != 0 ==> r == Err::<
            String,
            ErrorKind,
        >(ErrorKind::OddLength),
        r matches Ok(text) ==> text@ == spec_render(spec_frame(assembled_bytes@)),
{
    let words = match frame(&assembled_bytes) {
        Ok(words) => words,
        Err(e) => {
            return Err(e);
        },
    };
    let ghost all_words: Seq<u16> = words@;
    let mut out = String::new();
    let mut i: usize = 0;
    while i < words.len()
        invariant
            i <= words@.len(),
            words@ == all_words,
            out@ == spec_render(all_words.take(i as int)),
        decreases words@.len() - i,
    {
        let line = convert_instruction(words[i]);
        out.append(line.as_str());
        out.append("\n");
        proof {
            reveal_strlit("\n");
            assert(all_words.take(i + 1).drop_last() =~= all_words.take(i as int));
            assert(out@ =~= spec_render(all_words.take(i + 1)));
        }
        i = i + 1;
    }
    proof {
        assert(all_words.take(all_words.len() as int) =~= all_words);
    }
    Ok(out)
}

} // verus!
