//! The instruction decoder: a 16-bit instruction word is split into its four
//! nibbles and operand fields, and classified as one of the opcodes of the
//! base instruction set.

use vstd::prelude::*;

verus! {

/// The operand fields of an instruction word. Every field is extracted from
/// every word, whether or not the opcode makes use of it.
#[derive(Clone, Copy, Debug)]
pub struct Context {
    /// Second nibble: a register index.
    pub x: usize,
    /// Third nibble: a register index.
    pub y: usize,
    /// Fourth nibble: a small immediate.
    pub n: usize,
    /// Low byte: an 8-bit immediate.
    pub kk: u8,
    /// Low 12 bits: an address.
    pub nnn: u16,
    /// The four nibbles of the word, most significant first.
    pub nibbles: (u8, u8, u8, u8),
}

/// The opcodes of the instruction set, and `UNKNOWN` for every word that is
/// none of them.
#[derive(Clone, Copy, Debug, PartialEq, Eq, Structural)]
#[allow(non_camel_case_types)]
pub enum Opcode {
    CLS,
    RET,
    JP_ADDR,
    CALL_ADDR,
    SE_REG_CONST,
    SNE_REG_CONST,
    SE_REG_REG,
    LD_REG_CONST,
    ADD_REG_CONST,
    LD_REG_REG,
    OR_REG_REG,
    AND_REG_REG,
    XOR_REG_REG,
    ADD_REG_REG,
    SUB_REG_REG,
    SHR_REG,
    SUBN_REG_REG,
    SHL_REG,
    SNE_REG_REG,
    LD_I_ADDR,
    JP_V0_ADDR,
    RND_REG_CONST,
    DRW_REG_REG_CONST,
    SKP_REG,
    SKNP_REG,
    LD_REG_DELAY,
    LD_REG_KEY,
    LD_DELAY_REG,
    LD_SOUND_REG,
    ADD_I_REG,
    LD_FONT_CHAR,
    LD_BCD,
    LD_IND_REG,
    LD_REG_IND,
    UNKNOWN,
}

/// The nibble of `instruction` at `position`, counted from the most
/// significant one (position 0) to the least significant one (position 3).
pub open spec fn nibble(instruction: u16, position: int) -> u8 {
    if position == 0 {
        (instruction / 0x1000) as u8
    } else if position == 1 {
        (instruction / 0x100 % 0x10) as u8
    } else if position == 2 {
        (instruction / 0x10 % 0x10) as u8
    } else {
        (instruction % 0x10) as u8
    }
}

impl Context {
    /// The operand fields of `instruction`.
    pub open spec fn of(instruction: u16) -> Context {
        Context {
            x: nibble(instruction, 1) as usize,
            y: nibble(instruction, 2) as usize,
            n: nibble(instruction, 3) as usize,
            kk: (instruction % 0x100) as u8,
            nnn: (instruction % 0x1000) as u16,
            nibbles: (
                nibble(instruction, 0),
                nibble(instruction, 1),
                nibble(instruction, 2),
                nibble(instruction, 3),
            ),
        }
    }

    /// Extracts the operand fields of `instruction`.
    pub fn new(instruction: u16) -> (ctx: Self)
        ensures
            ctx == Self::of(instruction),
    {
        let nibbles: (u8, u8, u8, u8) = (
            ((instruction & 0xF000) >> 12) as u8,
            ((instruction & 0x0F00) >> 8) as u8,
            ((instruction & 0x00F0) >> 4) as u8,
            (instruction & 0x000F) as u8,
        );
        assert((instruction & 0xF000) >> 12 == instruction / 0x1000) by (bit_vector);
        assert((instruction & 0x0F00) >> 8 == instruction / 0x100 % 0x10) by (bit_vector);
        assert((instruction & 0x00F0) >> 4 == instruction / 0x10 % 0x10) by (bit_vector);
        assert(instruction & 0x000F == instruction % 0x10) by (bit_vector);
        assert(instruction & 0x00FF == instruction % 0x100) by (bit_vector);
        assert(instruction & 0x0FFF == instruction % 0x1000) by (bit_vector);
        Self {
            nibbles: nibbles,
            x: nibbles.1 as usize,
            y: nibbles.2 as usize,
            n: nibbles.3 as usize,
            kk: (instruction & 0x00FF) as u8,
            nnn: instruction & 0x0FFF,
        }
    }
}

/// The opcode that `instruction` encodes, by its nibbles.
pub open spec fn opcode_of(instruction: u16) -> Opcode {
    match Context::of(instruction).nibbles {
        (0x0, 0x0, 0xE, 0x0) => Opcode::CLS,
        (0x0, 0x0, 0xE, 0xE) => Opcode::RET,
        (0x1, _, _, _) => Opcode::JP_ADDR,
        (0x2, _, _, _) => Opcode::CALL_ADDR,
        (0x3, _, _, _) => Opcode::SE_REG_CONST,
        (0x4, _, _, _) => Opcode::SNE_REG_CONST,
        (0x5, _, _, 0x0) => Opcode::SE_REG_REG,
        (0x6, _, _, _) => Opcode::LD_REG_CONST,
        (0x7, _, _, _) => Opcode::ADD_REG_CONST,
        (0x8, _, _, 0x0) => Opcode::LD_REG_REG,
        (0x8, _, _, 0x1) => Opcode::OR_REG_REG,
        (0x8, _, _, 0x2) => Opcode::AND_REG_REG,
        (0x8, _, _, 0x3) => Opcode::XOR_REG_REG,
        (0x8, _, _, 0x4) => Opcode::ADD_REG_REG,
        (0x8, _, _, 0x5) => Opcode::SUB_REG_REG,
        (0x8, _, _, 0x6) => Opcode::SHR_REG,
        (0x8, _, _, 0x7) => Opcode::SUBN_REG_REG,
        (0x8, _, _, 0xE) => Opcode::SHL_REG,
        (0x9, _, _, 0x0) => Opcode::SNE_REG_REG,
        (0xA, _, _, _) => Opcode::LD_I_ADDR,
        (0xB, _, _, _) => Opcode::JP_V0_ADDR,
        (0xC, _, _, _) => Opcode::RND_REG_CONST,
        (0xD, _, _, _) => Opcode::DRW_REG_REG_CONST,
        (0xE, _, 0x9, 0xE) => Opcode::SKP_REG,
        (0xE, _, 0xA, 0x1) => Opcode::SKNP_REG,
        (0xF, _, 0x0, 0x7) => Opcode::LD_REG_DELAY,
        (0xF, _, 0x0, 0xA) => Opcode::LD_REG_KEY,
        (0xF, _, 0x1, 0x5) => Opcode::LD_DELAY_REG,
        (0xF, _, 0x1, 0x8) => Opcode::LD_SOUND_REG,
        (0xF, _, 0x1, 0xE) => Opcode::ADD_I_REG,
        (0xF, _, 0x2, 0x9) => Opcode::LD_FONT_CHAR,
        (0xF, _, 0x3, 0x3) => Opcode::LD_BCD,
        (0xF, _, 0x5, 0x5) => Opcode::LD_IND_REG,
        (0xF, _, 0x6, 0x5) => Opcode::LD_REG_IND,
        (_, _, _, _) => Opcode::UNKNOWN,
    }
}

/// Classifies `instruction` and extracts its operand fields. Every word has
/// an opcode: the words that the instruction set leaves undefined are
/// `UNKNOWN`. The result depends on the word alone, so decoding a word again
/// gives the same opcode and the same fields.
pub fn decode_instruction(instruction: u16) -> (decoded: (Opcode, Context))
    ensures
        decoded.0 == opcode_of(instruction),
        decoded.1 == Context::of(instruction),
{
    let ctx = Context::new(instruction);

    let opcode = match ctx.nibbles {
        (0x0, 0x0, 0xE, 0x0) => Opcode::CLS,
        (0x0, 0x0, 0xE, 0xE) => Opcode::RET,
        (0x1, _, _, _) => Opcode::JP_ADDR,
        (0x2, _, _, _) => Opcode::CALL_ADDR,
        (0x3, _, _, _) => Opcode::SE_REG_CONST,
        (0x4, _, _, _) => Opcode::SNE_REG_CONST,
        (0x5, _, _, 0x0) => Opcode::SE_REG_REG,
        (0x6, _, _, _) => Opcode::LD_REG_CONST,
        (0x7, _, _, _) => Opcode::ADD_REG_CONST,
        (0x8, _, _, 0x0) => Opcode::LD_REG_REG,
        (0x8, _, _, 0x1) => Opcode::OR_REG_REG,
        (0x8, _, _, 0x2) => Opcode::AND_REG_REG,
        (0x8, _, _, 0x3) => Opcode::XOR_REG_REG,
        (0x8, _, _, 0x4) => Opcode::ADD_REG_REG,
        (0x8, _, _, 0x5) => Opcode::SUB_REG_REG,
        (0x8, _, _, 0x6) => Opcode::SHR_REG,
        (0x8, _, _, 0x7) => Opcode::SUBN_REG_REG,
        (0x8, _, _, 0xE) => Opcode::SHL_REG,
        (0x9, _, _, 0x0) => Opcode::SNE_REG_REG,
        (0xA, _, _, _) => Opcode::LD_I_ADDR,
        (0xB, _, _, _) => Opcode::JP_V0_ADDR,
        (0xC, _, _, _) => Opcode::RND_REG_CONST,
        (0xD, _, _, _) => Opcode::DRW_REG_REG_CONST,
        (0xE, _, 0x9, 0xE) => Opcode::SKP_REG,
        (0xE, _, 0xA, 0x1) => Opcode::SKNP_REG,
        (0xF, _, 0x0, 0x7) => Opcode::LD_REG_DELAY,
        (0xF, _, 0x0, 0xA) => Opcode::LD_REG_KEY,
        (0xF, _, 0x1, 0x5) => Opcode::LD_DELAY_REG,
        (0xF, _, 0x1, 0x8) => Opcode::LD_SOUND_REG,
        (0xF, _, 0x1, 0xE) => Opcode::ADD_I_REG,
        (0xF, _, 0x2, 0x9) => Opcode::LD_FONT_CHAR,
        (0xF, _, 0x3, 0x3) => Opcode::LD_BCD,
        (0xF, _, 0x5, 0x5) => Opcode::LD_IND_REG,
        (0xF, _, 0x6, 0x5) => Opcode::LD_REG_IND,
        (_, _, _, _) => Opcode::UNKNOWN,
    };

    (opcode, ctx)
}

/// Whether `instruction` agrees with `pattern` on every nibble that `mask`
/// selects with the hex digit `F`.
pub open spec fn reads(instruction: u16, mask: u16, pattern: u16) -> bool {
    &&& nibble(mask, 0) == 0xF ==> nibble(instruction, 0) == nibble(pattern, 0)
    &&& nibble(mask, 1) == 0xF ==> nibble(instruction, 1) == nibble(pattern, 1)
    &&& nibble(mask, 2) == 0xF ==> nibble(instruction, 2) == nibble(pattern, 2)
    &&& nibble(mask, 3) == 0xF ==> nibble(instruction, 3) == nibble(pattern, 3)
}

/// The instruction table, as a mask and a pattern for each instruction:
/// whether `instruction` is an encoding of `opcode`. No word is an encoding
/// of `UNKNOWN` in this sense.
pub open spec fn encodes(instruction: u16, opcode: Opcode) -> bool {
    match opcode {
        Opcode::CLS => reads(instruction, 0xFFFF, 0x00E0),
        Opcode::RET => reads(instruction, 0xFFFF, 0x00EE),
        Opcode::JP_ADDR => reads(instruction, 0xF000, 0x1000),
        Opcode::CALL_ADDR => reads(instruction, 0xF000, 0x2000),
        Opcode::SE_REG_CONST => reads(instruction, 0xF000, 0x3000),
        Opcode::SNE_REG_CONST => reads(instruction, 0xF000, 0x4000),
        Opcode::SE_REG_REG => reads(instruction, 0xF00F, 0x5000),
        Opcode::LD_REG_CONST => reads(instruction, 0xF000, 0x6000),
        Opcode::ADD_REG_CONST => reads(instruction, 0xF000, 0x7000),
        Opcode::LD_REG_REG => reads(instruction, 0xF00F, 0x8000),
        Opcode::OR_REG_REG => reads(instruction, 0xF00F, 0x8001),
        Opcode::AND_REG_REG => reads(instruction, 0xF00F, 0x8002),
        Opcode::XOR_REG_REG => reads(instruction, 0xF00F, 0x8003),
        Opcode::ADD_REG_REG => reads(instruction, 0xF00F, 0x8004),
        Opcode::SUB_REG_REG => reads(instruction, 0xF00F, 0x8005),
        Opcode::SHR_REG => reads(instruction, 0xF00F, 0x8006),
        Opcode::SUBN_REG_REG => reads(instruction, 0xF00F, 0x8007),
        Opcode::SHL_REG => reads(instruction, 0xF00F, 0x800E),
        Opcode::SNE_REG_REG => reads(instruction, 0xF00F, 0x9000),
        Opcode::LD_I_ADDR => reads(instruction, 0xF000, 0xA000),
        Opcode::JP_V0_ADDR => reads(instruction, 0xF000, 0xB000),
        Opcode::RND_REG_CONST => reads(instruction, 0xF000, 0xC000),
        Opcode::DRW_REG_REG_CONST => reads(instruction, 0xF000, 0xD000),
        Opcode::SKP_REG => reads(instruction, 0xF0FF, 0xE09E),
        Opcode::SKNP_REG => reads(instruction, 0xF0FF, 0xE0A1),
        Opcode::LD_REG_DELAY => reads(instruction, 0xF0FF, 0xF007),
        Opcode::LD_REG_KEY => reads(instruction, 0xF0FF, 0xF00A),
        Opcode::LD_DELAY_REG => reads(instruction, 0xF0FF, 0xF015),
        Opcode::LD_SOUND_REG => reads(instruction, 0xF0FF, 0xF018),
        Opcode::ADD_I_REG => reads(instruction, 0xF0FF, 0xF01E),
        Opcode::LD_FONT_CHAR => reads(instruction, 0xF0FF, 0xF029),
        Opcode::LD_BCD => reads(instruction, 0xF0FF, 0xF033),
        Opcode::LD_IND_REG => reads(instruction, 0xF0FF, 0xF055),
        Opcode::LD_REG_IND => reads(instruction, 0xF0FF, 0xF065),
        Opcode::UNKNOWN => false,
    }
}

/// Every instruction word has exactly one opcode. A word that the table
/// lists under an instruction has that instruction's opcode and no other,
/// and a word that the table lists under no instruction is `UNKNOWN`.
pub proof fn lemma_exactly_one_opcode(instruction: u16)
    ensures
        forall|opcode: Opcode|
            opcode != Opcode::UNKNOWN ==> (#[trigger] encodes(instruction, opcode) <==> opcode_of(
                instruction,
            ) == opcode),
        opcode_of(instruction) == Opcode::UNKNOWN <==> forall|opcode: Opcode|
            !#[trigger] encodes(instruction, opcode),
{
    assert(opcode_of(instruction) != Opcode::UNKNOWN ==> encodes(
        instruction,
        opcode_of(instruction),
    ));
}

} // verus!
