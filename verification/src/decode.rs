//! Field extraction from a 32-bit instruction word.
//!
//! Bit positions count from the least significant bit:
//! opcode 31..28, rd 27..24, rs 23..20, func 19..16, rt 3..0,
//! offset 19..0, immediate 15..0.

use vstd::prelude::*;

verus! {

/// The fields of one instruction word. Each value is recomputed from the
/// word; nothing else is stored.
#[derive(Clone, Copy, Debug, PartialEq, Eq, Structural)]
pub struct DecodedInstruction {
    pub opcode: u32,
    pub func: u32,
    pub rd: u32,
    pub rs: u32,
    pub rt: u32,
    pub raw_offset: u32,
    pub sign_extended_offset: i32,
    pub immediate: u32,
}

/// The 20-bit two's-complement reading of `raw`: where bit 19 is set the
/// value is `raw - 0x100000`, otherwise it is `raw` itself.
pub open spec fn sign_extend(raw: u32) -> int {
    if raw & 0x80000 != 0 {
        raw - 0x100000
    } else {
        raw as int
    }
}

/// The fields of `word`, by position.
pub open spec fn decode_spec(word: u32) -> DecodedInstruction {
    DecodedInstruction {
        opcode: (word >> 28) & 0xf,
        func: (word >> 16) & 0xf,
        rd: (word >> 24) & 0xf,
        rs: (word >> 20) & 0xf,
        rt: word & 0xf,
        raw_offset: word & 0xfffff,
        sign_extended_offset: sign_extend(word & 0xfffff) as i32,
        immediate: word & 0xffff,
    }
}

/// The word that carries the given fields: the inverse of field extraction.
/// `low` is the 16-bit tail, which holds the immediate and, in its lowest
/// four bits, rt.
pub open spec fn encode_spec(opcode: u32, rd: u32, rs: u32, func: u32, low: u32) -> u32 {
    (opcode << 28) | (rd << 24) | (rs << 20) | (func << 16) | low
}

impl DecodedInstruction {
    /// Every field lies in the range that its width allows, and the signed
    /// offset is the sign extension of the raw one.
    pub open spec fn wf(self) -> bool {
        &&& self.opcode < 16
        &&& self.func < 16
        &&& self.rd < 16
        &&& self.rs < 16
        &&& self.rt < 16
        &&& self.raw_offset < 0x100000
        &&& self.immediate < 0x10000
        &&& self.sign_extended_offset == sign_extend(self.raw_offset)
        &&& -0x80000 <= self.sign_extended_offset < 0x80000
    }
}

/// Splits `word` into its fields. Total: every 32-bit value decodes, and the
/// result depends on the word alone.
pub fn decode(word: u32) -> (d: DecodedInstruction)
    ensures
        d == decode_spec(word),
        d.wf(),
        d.raw_offset & 0x80000 != 0 ==> d.sign_extended_offset < 0 && d.sign_extended_offset
            == d.raw_offset - 0x100000,
        d.raw_offset & 0x80000 == 0 ==> d.sign_extended_offset == d.raw_offset,
{
    let raw_offset: u32 = word & 0xfffff;
    assert((word >> 28) & 0xf < 16 && (word >> 16) & 0xf < 16 && (word >> 24) & 0xf < 16 && (word
        >> 20) & 0xf < 16 && word & 0xf < 16 && word & 0xfffff < 0x100000 && word & 0xffff
        < 0x10000) by (bit_vector);
    assert(raw_offset & 0x80000 != 0 ==> raw_offset >= 0x80000) by (bit_vector);
    assert(raw_offset < 0x100000 && raw_offset & 0x80000 == 0 ==> raw_offset < 0x80000)
        by (bit_vector);
    let sign_extended_offset: i32 = if raw_offset & 0x80000 != 0 {
        raw_offset as i32 - 0x100000
    } else {
        raw_offset as i32
    };
    DecodedInstruction {
        opcode: (word >> 28) & 0xf,
        func: (word >> 16) & 0xf,
        rd: (word >> 24) & 0xf,
        rs: (word >> 20) & 0xf,
        rt: word & 0xf,
        raw_offset,
        sign_extended_offset,
        immediate: word & 0xffff,
    }
}

/// Decoding a word built from fields gives those fields back, whatever the
/// registers and the 16-bit tail are.
pub proof fn lemma_decode_encode(opcode: u32, rd: u32, rs: u32, func: u32, low: u32)
    requires
        opcode < 16,
        rd < 16,
        rs < 16,
        func < 16,
        low < 0x10000,
    ensures
        decode_spec(encode_spec(opcode, rd, rs, func, low)).opcode == opcode,
        decode_spec(encode_spec(opcode, rd, rs, func, low)).rd == rd,
        decode_spec(encode_spec(opcode, rd, rs, func, low)).rs == rs,
        decode_spec(encode_spec(opcode, rd, rs, func, low)).func == func,
        decode_spec(encode_spec(opcode, rd, rs, func, low)).immediate == low,
        decode_spec(encode_spec(opcode, rd, rs, func, low)).rt == low % 16,
        decode_spec(encode_spec(opcode, rd, rs, func, low)).raw_offset == func * 0x10000 + low,
{
    let w = encode_spec(opcode, rd, rs, func, low);
    assert(opcode < 16 && rd < 16 && rs < 16 && func < 16 && low < 0x10000 && w == (opcode << 28)
        | (rd << 24) | (rs << 20) | (func << 16) | low ==> (w >> 28) & 0xf == opcode && (w >> 24)
        & 0xf == rd && (w >> 20) & 0xf == rs && (w >> 16) & 0xf == func && w & 0xffff == low && w
        & 0xf == low % 16 && w & 0xfffff == func * 0x10000 + low) by (bit_vector);
}

} // verus!
