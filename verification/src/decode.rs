//! The decoder: a total function from one 16-bit instruction word to its
//! mnemonic line.
//!
//! Decoding is an ordered, first-match-wins case analysis over bit fields of
//! the word: the top nibble is the primary discriminator, and depending on
//! it the rest of the word is read as a 12-bit address, a register index
//! plus an immediate byte, two register indices, or a register index plus a
//! low-byte sub-opcode. A word that matches no pattern is rendered as its
//! raw hexadecimal value, so that embedded non-instruction data (sprite
//! bitmaps and the like) never aborts a run.

use vstd::prelude::*;

use crate::hex::hex1;
use crate::hex::hex2;
use crate::hex::hex3;
use crate::hex::hex4;
use crate::hex::spec_hex1;
use crate::hex::spec_hex2;
use crate::hex::spec_hex3;
use crate::hex::spec_hex4;

verus! {

/// The top nibble of a word, bits 15 to 12: the primary opcode field.
pub open spec fn spec_hi(inst: u16) -> u16 {
    inst >> 12
}

/// The low 12 bits of a word: the address operand of jump-like forms.
pub open spec fn spec_addr(inst: u16) -> u16 {
    inst & 0x0FFF
}

/// Bits 11 to 8 of a word: the first register index, `Vx`.
pub open spec fn spec_x(inst: u16) -> u16 {
    (inst & 0x0F00) >> 8
}

/// Bits 7 to 4 of a word: the second register index, `Vy`.
pub open spec fn spec_y(inst: u16) -> u16 {
    (inst & 0x00F0) >> 4
}

/// The low byte of a word: the immediate operand, or a sub-opcode.
pub open spec fn spec_lo8(inst: u16) -> u16 {
    inst & 0x00FF
}

/// The bottom nibble of a word: a sub-opcode, or the size operand of `DRW`.
pub open spec fn spec_lo4(inst: u16) -> u16 {
    inst & 0x000F
}

/// The mnemonic line for one instruction word.
///
/// The cases are tried in a fixed priority order: the two exact full-word
/// matches first, then the address forms, the register-plus-byte forms, the
/// two-register forms, `DRW`, the low-byte-selected forms, and last the raw
/// hexadecimal fallback. The patterns are mutually exclusive, so the order
/// does not change the result, but it is kept for clarity.
pub open spec fn spec_decode(inst: u16) -> Seq<char> {
    let hi = spec_hi(inst);
    let addr = spec_addr(inst);
    let x = spec_x(inst);
    let y = spec_y(inst);
    let lo8 = spec_lo8(inst);
    let lo4 = spec_lo4(inst);
    if inst == 0x00E0 {
        "CLS"@
    } else if inst == 0x00EE {
        "RET"@
    } else if hi == 0x0 {
        "SYS 0x"@ + spec_hex3(addr)
    } else if hi == 0x1 {
        "JP 0x"@ + spec_hex3(addr)
    } else if hi == 0x2 {
        "CALL 0x"@ + spec_hex3(addr)
    } else if hi == 0xA {
        "LD I, 0x"@ + spec_hex3(addr)
    } else if hi == 0xB {
        "JP V0, 0x"@ + spec_hex3(addr)
    } else if hi == 0x3 {
        "SE V"@ + spec_hex1(x) + ", 0x"@ + spec_hex2(lo8)
    } else if hi == 0x4 {
        "SNE V"@ + spec_hex1(x) + ", 0x"@ + spec_hex2(lo8)
    } else if hi == 0x6 {
        "LD V"@ + spec_hex1(x) + ", 0x"@ + spec_hex2(lo8)
    } else if hi == 0x7 {
        "ADD V"@ + spec_hex1(x) + ", 0x"@ + spec_hex2(lo8)
    } else if hi == 0xC {
        "RND V"@ + spec_hex1(x) + ", 0x"@ + spec_hex2(lo8)
    } else if hi == 0x5 && lo4 == 0x0 {
        "SE V"@ + spec_hex1(x) + ", V"@ + spec_hex1(y)
    } else if hi == 0x8 && lo4 == 0x0 {
        "LD V"@ + spec_hex1(x) + ", V"@ + spec_hex1(y)
    } else if hi == 0x8 && lo4 == 0x1 {
        "OR V"@ + spec_hex1(x) + ", V"@ + spec_hex1(y)
    } else if hi == 0x8 && lo4 == 0x2 {
        "AND V"@ + spec_hex1(x) + ", V"@ + spec_hex1(y)
    } else if hi == 0x8 && lo4 == 0x3 {
        "XOR V"@ + spec_hex1(x) + ", V"@ + spec_hex1(y)
    } else if hi == 0x8 && lo4 == 0x4 {
        "ADD V"@ + spec_hex1(x) + ", V"@ + spec_hex1(y)
    } else if hi == 0x8 && lo4 == 0x5 {
        "SUB V"@ + spec_hex1(x) + ", V"@ + spec_hex1(y)
    } else if hi == 0x8 && lo4 == 0x7 {
        "SUBN V"@ + spec_hex1(x) + ", V"@ + spec_hex1(y)
    } else if hi == 0x9 && lo4 == 0x0 {
        "SNE V"@ + spec_hex1(x) + ", V"@ + spec_hex1(y)
    } else if hi == 0x8 && lo4 == 0x6 {
        "SHR V"@ + spec_hex1(x)
    } else if hi == 0x8 && lo4 == 0xE {
        "SHL V"@ + spec_hex1(x)
    } else if hi == 0xD {
        "DRW V"@ + spec_hex1(x) + ", V"@ + spec_hex1(y) + ", 0x"@ + spec_hex1(lo4)
    } else if hi == 0xE && lo8 == 0x9E {
        "SKP V"@ + spec_hex1(x)
    } else if hi == 0xE && lo8 == 0xA1 {
        "SKNP V"@ + spec_hex1(x)
    } else if hi == 0xF && lo8 == 0x07 {
        "LD V"@ + spec_hex1(x) + ", DT"@
    } else if hi == 0xF && lo8 == 0x0A {
        "LD V"@ + spec_hex1(x) + ", K"@
    } else if hi == 0xF && lo8 == 0x15 {
        "LD DT, V"@ + spec_hex1(x)
    } else if hi == 0xF && lo8 == 0x18 {
        "LD ST, V"@ + spec_hex1(x)
    } else if hi == 0xF && lo8 == 0x1E {
        "ADD I, V"@ + spec_hex1(x)
    } else if hi == 0xF && lo8 == 0x29 {
        "LD F, V"@ + spec_hex1(x)
    } else if hi == 0xF && lo8 == 0x33 {
        "LD B, V"@ + spec_hex1(x)
    } else if hi == 0xF && lo8 == 0x55 {
        "LD [I], V"@ + spec_hex1(x)
    } else if hi == 0xF && lo8 == 0x65 {
        "LD V"@ + spec_hex1(x) + ", [I]"@
    } else {
        "0x"@ + spec_hex4(inst)
    }
}

/// Decoding is total: every 16-bit word has a mnemonic line, and the line
/// is never empty — a word matching no instruction pattern still gets the
/// raw hexadecimal fallback rather than failing.
pub proof fn lemma_decode_total(inst: u16)
    ensures
        spec_decode(inst).len() > 0,
{
    reveal_strlit("CLS");
    reveal_strlit("RET");
    reveal_strlit("SYS 0x");
    reveal_strlit("JP 0x");
    reveal_strlit("CALL 0x");
    reveal_strlit("LD I, 0x");
    reveal_strlit("JP V0, 0x");
    reveal_strlit("SE V");
    reveal_strlit("SNE V");
    reveal_strlit("LD V");
    reveal_strlit("ADD V");
    reveal_strlit("RND V");
    reveal_strlit("OR V");
    reveal_strlit("AND V");
    reveal_strlit("XOR V");
    reveal_strlit("SUB V");
    reveal_strlit("SUBN V");
    reveal_strlit("SHR V");
    reveal_strlit("SHL V");
    reveal_strlit("DRW V");
    reveal_strlit("SKP V");
    reveal_strlit("SKNP V");
    reveal_strlit("LD DT, V");
    reveal_strlit("LD ST, V");
    reveal_strlit("ADD I, V");
    reveal_strlit("LD F, V");
    reveal_strlit("LD B, V");
    reveal_strlit("LD [I], V");
    reveal_strlit("0x");
}

/// Decode one assembled instruction word into its human-readable line.
///
/// Total: every word decodes to some line, and the line is never empty.
pub fn convert_instruction(inst: u16) -> (r: String)
    ensures
        r@ == spec_decode(inst),
        r@.len() > 0,
{
    proof {
        lemma_decode_total(inst);
    }
    assert(inst >> 12 < 16 && inst & 0x0FFF < 4096 && (inst & 0x0F00) >> 8 < 16 && (inst & 0x00F0)
        >> 4 < 16 && inst & 0x00FF < 256 && inst & 0x000F < 16) by (bit_vector);
    let hi = inst >> 12;
    let addr = inst & 0x0FFF;
    let x = (inst & 0x0F00) >> 8;
    let y = (inst & 0x00F0) >> 4;
    let lo8 = inst & 0x00FF;
    let lo4 = inst & 0x000F;
    let r: String = if inst == 0x00E0 {
        String::from_str("CLS")
    } else if inst == 0x00EE {
        String::from_str("RET")
    } else if hi == 0x0 {
        String::from_str("SYS 0x").concat(hex3(addr).as_str())
    } else if hi == 0x1 {
        String::from_str("JP 0x").concat(hex3(addr).as_str())
    } else if hi == 0x2 {
        String::from_str("CALL 0x").concat(hex3(addr).as_str())
    } else if hi == 0xA {
        String::from_str("LD I, 0x").concat(hex3(addr).as_str())
    } else if hi == 0xB {
        String::from_str("JP V0, 0x").concat(hex3(addr).as_str())
    } else if hi == 0x3 {
        String::from_str("SE V").concat(hex1(x)).concat(", 0x").concat(hex2(lo8).as_str())
    } else if hi == 0x4 {
        String::from_str("SNE V").concat(hex1(x)).concat(", 0x").concat(hex2(lo8).as_str())
    } else if hi == 0x6 {
        String::from_str("LD V").concat(hex1(x)).concat(", 0x").concat(hex2(lo8).as_str())
    } else if hi == 0x7 {
        String::from_str("ADD V").concat(hex1(x)).concat(", 0x").concat(hex2(lo8).as_str())
    } else if hi == 0xC {
        String::from_str("RND V").concat(hex1(x)).concat(", 0x").concat(hex2(lo8).as_str())
    } else if hi == 0x5 && lo4 == 0x0 {
        String::from_str("SE V").concat(hex1(x)).concat(", V").concat(hex1(y))
    } else if hi == 0x8 && lo4 == 0x0 {
        String::from_str("LD V").concat(hex1(x)).concat(", V").concat(hex1(y))
    } else if hi == 0x8 && lo4 == 0x1 {
        String::from_str("OR V").concat(hex1(x)).concat(", V").concat(hex1(y))
    } else if hi == 0x8 && lo4 == 0x2 {
        String::from_str("AND V").concat(hex1(x)).concat(", V").concat(hex1(y))
    } else if hi == 0x8 && lo4 == 0x3 {
        String::from_str("XOR V").concat(hex1(x)).concat(", V").concat(hex1(y))
    } else if hi == 0x8 && lo4 == 0x4 {
        String::from_str("ADD V").concat(hex1(x)).concat(", V").concat(hex1(y))
    } else if hi == 0x8 && lo4 == 0x5 {
        String::from_str("SUB V").concat(hex1(x)).concat(", V").concat(hex1(y))
    } else if hi == 0x8 && lo4 == 0x7 {
        String::from_str("SUBN V").concat(hex1(x)).concat(", V").concat(hex1(y))
    } else if hi == 0x9 && lo4 == 0x0 {
        String::from_str("SNE V").concat(hex1(x)).concat(", V").concat(hex1(y))
    } else if hi == 0x8 && lo4 == 0x6 {
        String::from_str("SHR V").concat(hex1(x))
    } else if hi == 0x8 && lo4 == 0xE {
        String::from_str("SHL V").concat(hex1(x))
    } else if hi == 0xD {
        String::from_str("DRW V").concat(hex1(x)).concat(", V").concat(hex1(y)).concat(
            ", 0x",
        ).concat(hex1(lo4))
    } else if hi == 0xE && lo8 == 0x9E {
        String::from_str("SKP V").concat(hex1(x))
    } else if hi == 0xE && lo8 == 0xA1 {
        String::from_str("SKNP V").concat(hex1(x))
    } else if hi == 0xF && lo8 == 0x07 {
        String::from_str("LD V").concat(hex1(x)).concat(", DT")
    } else if hi == 0xF && lo8 == 0x0A {
        String::from_str("LD V").concat(hex1(x)).concat(", K")
    } else if hi == 0xF && lo8 == 0x15 {
        String::from_str("LD DT, V").concat(hex1(x))
    } else if hi == 0xF && lo8 == 0x18 {
        String::from_str("LD ST, V").concat(hex1(x))
    } else if hi == 0xF && lo8 == 0x1E {
        String::from_str("ADD I, V").concat(hex1(x))
    } else if hi == 0xF && lo8 == 0x29 {
        String::from_str("LD F, V").concat(hex1(x))
    } else if hi == 0xF && lo8 == 0x33 {
        String::from_str("LD B, V").concat(hex1(x))
    } else if hi == 0xF && lo8 == 0x55 {
        String::from_str("LD [I], V").concat(hex1(x))
    } else if hi == 0xF && lo8 == 0x65 {
        String::from_str("LD V").concat(hex1(x)).concat(", [I]")
    } else {
        String::from_str("0x").concat(hex4(inst).as_str())
    };
    assert(r@ =~= spec_decode(inst));
    r
}

} // verus!
