//! Decoding of raw 32-bit instruction words: fixed-position field
//! extraction and reconstruction of the sign-extended immediates of the
//! five instruction formats (I, S, B, U and J).
use vstd::prelude::*;

verus! {

use crate::arith::{sext32, sign_extend_word};

/// One bit group of an immediate encoding: `mask` selects where the group
/// sits in the raw word, and `shift` says how far it moves right (positive)
/// or left (negative) to land at its place in the decoded value.
pub struct FieldMask {
    pub mask: u32,
    pub shift: isize,
}

/// The bits that one field group contributes to the assembled immediate.
pub open spec fn field_bits(w: u32, f: FieldMask) -> u32 {
    if f.shift > 0 {
        (w & f.mask) >> (f.shift as u32)
    } else {
        (w & f.mask) << ((-f.shift) as u32)
    }
}

/// All field groups of a format, gathered into one 32-bit value.
pub open spec fn gather_fields(w: u32, fields: Seq<FieldMask>) -> u32
    decreases fields.len(),
{
    if fields.len() == 0 {
        0
    } else {
        gather_fields(w, fields.drop_last()) | field_bits(w, fields.last())
    }
}

/// The immediate that a format with the given field groups and native bit
/// width decodes to: the gathered bits, sign-extended from the native width
/// to 32 bits and from there to 64 bits.
pub open spec fn spec_decode_immediate(w: u32, fields: Seq<FieldMask>, immediate_size: usize) -> u64 {
    let gathered = gather_fields(w, fields);
    let extended = if immediate_size < 32 && gathered & (1u32 << ((immediate_size - 1) as u32))
        != 0 {
        gathered | (0xFFFF_FFFFu32 << (immediate_size as u32))
    } else {
        gathered
    };
    sext32(extended)
}

/// Gathers the field groups of one immediate format out of a raw word and
/// sign-extends the result, first to 32 bits from the format's native
/// width, then to the full 64-bit register width.
pub fn decode_immediate_signed<const N: usize>(
    source: u32,
    fields: &[FieldMask; N],
    immediate_size: usize,
) -> (r: u64)
    requires
        0 < immediate_size <= 32,
        forall|j: int| 0 <= j < N ==> -32 < #[trigger] fields[j].shift < 32,
    ensures
        r == spec_decode_immediate(source, fields@, immediate_size),
{
    let mut immediate: u32 = 0;
    let mut k: usize = 0;
    while k < N
        invariant
            k <= N,
            immediate == gather_fields(source, fields@.subrange(0, k as int)),
            forall|j: int| 0 <= j < N ==> -32 < #[trigger] fields[j].shift < 32,
        decreases N - k,
    {
        let field = &fields[k];
        if field.shift > 0 {
            immediate = immediate | ((source & field.mask) >> (field.shift as usize));
        } else {
            immediate = immediate | ((source & field.mask) << ((-field.shift) as usize));
        }
        proof {
            let prefix = fields@.subrange(0, k as int);
            let next = fields@.subrange(0, k + 1int);
            assert(next.drop_last() =~= prefix);
            assert(next.last() == fields@[k as int]);
        }
        k = k + 1;
    }
    proof {
        assert(fields@.subrange(0, N as int) =~= fields@);
    }
    if immediate_size < 32 {
        let sign_bit = 1u32 << (immediate_size - 1);
        if immediate & sign_bit != 0 {
            immediate = immediate | (0xFFFF_FFFFu32 << immediate_size);
        }
    }
    sign_extend_word(immediate)
}

/// Unfolds `gather_fields` over a one-element field list.
proof fn lemma_gather1(w: u32, s: Seq<FieldMask>)
    requires
        s.len() == 1,
    ensures
        gather_fields(w, s) == 0u32 | field_bits(w, s[0]),
{
    let empty = Seq::<FieldMask>::empty();
    assert(s.drop_last() =~= empty);
    assert(gather_fields(w, empty) == 0);
    assert(gather_fields(w, s) == gather_fields(w, s.drop_last()) | field_bits(w, s.last()));
}

/// Unfolds `gather_fields` over a two-element field list.
proof fn lemma_gather2(w: u32, s: Seq<FieldMask>)
    requires
        s.len() == 2,
    ensures
        gather_fields(w, s) == (0u32 | field_bits(w, s[0])) | field_bits(w, s[1]),
{
    assert(s.drop_last() =~= s.subrange(0, 1));
    lemma_gather1(w, s.subrange(0, 1));
}

/// Unfolds `gather_fields` over a four-element field list.
proof fn lemma_gather4(w: u32, s: Seq<FieldMask>)
    requires
        s.len() == 4,
    ensures
        gather_fields(w, s) == (((0u32 | field_bits(w, s[0])) | field_bits(w, s[1])) | field_bits(
            w,
            s[2],
        )) | field_bits(w, s[3]),
{
    let s3 = s.subrange(0, 3);
    assert(s.drop_last() =~= s3);
    assert(s3.drop_last() =~= s.subrange(0, 2));
    lemma_gather2(w, s.subrange(0, 2));
    assert(gather_fields(w, s3) == gather_fields(w, s3.drop_last()) | field_bits(w, s3.last()));
    assert(gather_fields(w, s) == gather_fields(w, s.drop_last()) | field_bits(w, s.last()));
}

/// An immutable decoded view of one raw instruction word.
pub ghost struct InstrView {
    pub raw: u32,
    pub opcode: u32,
    pub rd: usize,
    pub rs1: usize,
    pub rs2: usize,
    pub func3: u32,
    pub func7: u32,
    pub func12: u32,
}

/// The low 7 bits of a word: the major opcode.
pub open spec fn spec_opcode(w: u32) -> u32 {
    w & 0x7F
}

/// The destination register field, bits 11 down to 7.
pub open spec fn spec_rd(w: u32) -> usize {
    ((w >> 7) & 0x1F) as usize
}

/// The first source register field, bits 19 down to 15.
pub open spec fn spec_rs1(w: u32) -> usize {
    ((w >> 15) & 0x1F) as usize
}

/// The second source register field, bits 24 down to 20.
pub open spec fn spec_rs2(w: u32) -> usize {
    ((w >> 20) & 0x1F) as usize
}

/// The funct3 field, bits 14 down to 12.
pub open spec fn spec_func3(w: u32) -> u32 {
    (w >> 12) & 0x7
}

/// The funct7 field, bits 31 down to 25.
pub open spec fn spec_func7(w: u32) -> u32 {
    (w >> 25) & 0x7F
}

/// The funct12 field, bits 31 down to 20, used by system instructions.
pub open spec fn spec_func12(w: u32) -> u32 {
    (w >> 20) & 0xFFF
}

/// The decoded view of a raw word: every fixed field extracted.
pub open spec fn spec_instruction(w: u32) -> InstrView {
    InstrView {
        raw: w,
        opcode: spec_opcode(w),
        rd: spec_rd(w),
        rs1: spec_rs1(w),
        rs2: spec_rs2(w),
        func3: spec_func3(w),
        func7: spec_func7(w),
        func12: spec_func12(w),
    }
}

/// The I-format immediate: bits 31 down to 20, sign-extended from 12 bits.
pub open spec fn spec_it_immediate(w: u32) -> u64 {
    let bits = (w >> 20) & 0xFFF;
    sext32(
        if bits & 0x800 != 0 {
            bits | 0xFFFF_F000u32
        } else {
            bits
        },
    )
}

/// The S-format immediate: bits 31..25 and 11..7, sign-extended from 12
/// bits.
pub open spec fn spec_st_immediate(w: u32) -> u64 {
    let bits = (((w >> 25) & 0x7F) << 5) | ((w >> 7) & 0x1F);
    sext32(
        if bits & 0x800 != 0 {
            bits | 0xFFFF_F000u32
        } else {
            bits
        },
    )
}

/// The B-format immediate: a 13-bit branch offset with an implicit zero low
/// bit, gathered from bits 31, 30..25, 11..8 and 7, sign-extended from 13
/// bits.
pub open spec fn spec_bt_immediate(w: u32) -> u64 {
    let bits = (((w >> 31) & 0x1) << 12) | ((((w >> 25) & 0x3F) << 5) | (((w >> 8) & 0xF) << 1) | (
    ((w >> 7) & 0x1) << 11));
    sext32(
        if bits & 0x1000 != 0 {
            bits | 0xFFFF_E000u32
        } else {
            bits
        },
    )
}

/// The U-format immediate: the upper 20 bits of the word in place, low 12
/// bits zero, sign-extended from 32 to 64 bits.
pub open spec fn spec_ut_immediate(w: u32) -> u64 {
    sext32(w & 0xFFFF_F000)
}

/// The J-format immediate: a 21-bit jump offset with an implicit zero low
/// bit, gathered from bits 31, 30..21, 20 and 19..12, sign-extended from 21
/// bits.
pub open spec fn spec_jt_immediate(w: u32) -> u64 {
    let bits = (((w >> 31) & 0x1) << 20) | ((((w >> 21) & 0x3FF) << 1) | (((w >> 20) & 0x1) << 11)
        | (((w >> 12) & 0xFF) << 12));
    sext32(
        if bits & 0x10_0000 != 0 {
            bits | 0xFFE0_0000u32
        } else {
            bits
        },
    )
}

/// An immutable decoded view of one raw instruction word: the fixed fields
/// are extracted once at construction, and the per-format immediates are
/// reconstructed on demand.
#[derive(Debug, Copy, Clone)]
pub struct Instruction {
    pub raw_instruction: u32,
    pub opcode: u32,
    pub rd: usize,
    pub rs1: usize,
    pub rs2: usize,
    pub func3: u32,
    pub func7: u32,
    pub func12: u32,
}

impl View for Instruction {
    type V = InstrView;

    open spec fn view(&self) -> InstrView {
        InstrView {
            raw: self.raw_instruction,
            opcode: self.opcode,
            rd: self.rd,
            rs1: self.rs1,
            rs2: self.rs2,
            func3: self.func3,
            func7: self.func7,
            func12: self.func12,
        }
    }
}

impl Instruction {
    /// Decodes the fixed fields of a raw word. Total: every 32-bit value
    /// decodes; encodings that name no real instruction are rejected later
    /// by dispatch.
    pub fn new(raw_instruction: u32) -> (r: Self)
        ensures
            r@ == spec_instruction(raw_instruction),
            r@.rd < 32 && r@.rs1 < 32 && r@.rs2 < 32,
            r@.func3 < 8 && r@.func7 < 128 && r@.func12 < 4096,
            r@.opcode < 128,
    {
        proof {
            lemma_field_ranges(raw_instruction);
        }
        let opcode = raw_instruction & 0x7F;
        let rd = ((raw_instruction >> 7) & 0x1F) as usize;
        let rs1 = ((raw_instruction >> 15) & 0x1F) as usize;
        let rs2 = ((raw_instruction >> 20) & 0x1F) as usize;
        let func3 = (raw_instruction >> 12) & 0x7;
        let func7 = (raw_instruction >> 25) & 0x7F;
        let func12 = (raw_instruction >> 20) & 0xFFF;
        Self { raw_instruction, opcode, rd, rs1, rs2, func3, func7, func12 }
    }

    /// The I-format immediate of this word.
    pub fn it_immediate(&self) -> (r: u64)
        ensures
            r == spec_it_immediate(self@.raw),
    {
        let masks = [FieldMask { mask: 0xFFF0_0000, shift: 20 }];
        let r = decode_immediate_signed(self.raw_instruction, &masks, 12);
        proof {
            let w = self.raw_instruction;
            lemma_gather1(w, masks@);
            let g = 0u32 | field_bits(w, masks@[0]);
            assert({
                let e = if g & (1u32 << 11u32) != 0 {
                    g | (0xFFFF_FFFFu32 << 12u32)
                } else {
                    g
                };
                let bits = (w >> 20) & 0xFFF;
                let d = if bits & 0x800 != 0 {
                    bits | 0xFFFF_F000u32
                } else {
                    bits
                };
                e == d
            }) by (bit_vector)
                requires
                    g == 0u32 | ((w & 0xFFF0_0000u32) >> 20u32),
            ;
        }
        r
    }

    /// The S-format immediate of this word.
    pub fn st_immediate(&self) -> (r: u64)
        ensures
            r == spec_st_immediate(self@.raw),
    {
        let masks = [
            FieldMask { mask: 0xFE00_0000, shift: 20 },
            FieldMask { mask: 0x0000_0F80, shift: 7 },
        ];
        let r = decode_immediate_signed(self.raw_instruction, &masks, 12);
        proof {
            let w = self.raw_instruction;
            lemma_gather2(w, masks@);
            let g = (0u32 | field_bits(w, masks@[0])) | field_bits(w, masks@[1]);
            assert({
                let e = if g & (1u32 << 11u32) != 0 {
                    g | (0xFFFF_FFFFu32 << 12u32)
                } else {
                    g
                };
                let bits = (((w >> 25) & 0x7F) << 5) | ((w >> 7) & 0x1F);
                let d = if bits & 0x800 != 0 {
                    bits | 0xFFFF_F000u32
                } else {
                    bits
                };
                e == d
            }) by (bit_vector)
                requires
                    g == (0u32 | ((w & 0xFE00_0000u32) >> 20u32)) | ((w & 0x0000_0F80u32)
                        >> 7u32),
            ;
        }
        r
    }

    /// The B-format immediate of this word.
    pub fn bt_immediate(&self) -> (r: u64)
        ensures
            r == spec_bt_immediate(self@.raw),
    {
        let masks = [
            FieldMask { mask: 0x8000_0000, shift: 19 },
            FieldMask { mask: 0x7E00_0000, shift: 20 },
            FieldMask { mask: 0x0000_0F00, shift: 7 },
            FieldMask { mask: 0x0000_0080, shift: -4 },
        ];
        let r = decode_immediate_signed(self.raw_instruction, &masks, 13);
        proof {
            let w = self.raw_instruction;
            lemma_gather4(w, masks@);
            let g = (((0u32 | field_bits(w, masks@[0])) | field_bits(w, masks@[1])) | field_bits(
                w,
                masks@[2],
            )) | field_bits(w, masks@[3]);
            assert({
                let e = if g & (1u32 << 12u32) != 0 {
                    g | (0xFFFF_FFFFu32 << 13u32)
                } else {
                    g
                };
                let bits = (((w >> 31) & 0x1) << 12) | ((((w >> 25) & 0x3F) << 5) | (((w >> 8)
                    & 0xF) << 1) | (((w >> 7) & 0x1) << 11));
                let d = if bits & 0x1000 != 0 {
                    bits | 0xFFFF_E000u32
                } else {
                    bits
                };
                e == d
            }) by (bit_vector)
                requires
                    g == (((0u32 | ((w & 0x8000_0000u32) >> 19u32)) | ((w & 0x7E00_0000u32)
                        >> 20u32)) | ((w & 0x0000_0F00u32) >> 7u32)) | ((w & 0x0000_0080u32)
                        << 4u32),
            ;
        }
        r
    }

    /// The U-format immediate of this word.
    pub fn ut_immediate(&self) -> (r: u64)
        ensures
            r == spec_ut_immediate(self@.raw),
    {
        let masks = [FieldMask { mask: 0xFFFF_F000, shift: 0 }];
        let r = decode_immediate_signed(self.raw_instruction, &masks, 32);
        proof {
            let w = self.raw_instruction;
            lemma_gather1(w, masks@);
            assert(0u32 | ((w & 0xFFFF_F000u32) << 0u32) == w & 0xFFFF_F000u32) by (bit_vector);
        }
        r
    }

    /// The J-format immediate of this word.
    pub fn jt_immediate(&self) -> (r: u64)
        ensures
            r == spec_jt_immediate(self@.raw),
    {
        let masks = [
            FieldMask { mask: 0x8000_0000, shift: 11 },
            FieldMask { mask: 0x7FE0_0000, shift: 20 },
            FieldMask { mask: 0x0010_0000, shift: 9 },
            FieldMask { mask: 0x000F_F000, shift: 0 },
        ];
        let r = decode_immediate_signed(self.raw_instruction, &masks, 21);
        proof {
            let w = self.raw_instruction;
            lemma_gather4(w, masks@);
            let g = (((0u32 | field_bits(w, masks@[0])) | field_bits(w, masks@[1])) | field_bits(
                w,
                masks@[2],
            )) | field_bits(w, masks@[3]);
            assert({
                let e = if g & (1u32 << 20u32) != 0 {
                    g | (0xFFFF_FFFFu32 << 21u32)
                } else {
                    g
                };
                let bits = (((w >> 31) & 0x1) << 20) | ((((w >> 21) & 0x3FF) << 1) | (((w >> 20)
                    & 0x1) << 11) | (((w >> 12) & 0xFF) << 12));
                let d = if bits & 0x10_0000 != 0 {
                    bits | 0xFFE0_0000u32
                } else {
                    bits
                };
                e == d
            }) by (bit_vector)
                requires
                    g == (((0u32 | ((w & 0x8000_0000u32) >> 11u32)) | ((w & 0x7FE0_0000u32)
                        >> 20u32)) | ((w & 0x0010_0000u32) >> 9u32)) | ((w & 0x000F_F000u32)
                        << 0u32),
            ;
        }
        r
    }
}

/// Law: assembling any sign-extended 12-bit value into the I-format
/// immediate field of any word and decoding that word's I-immediate yields
/// the value back, over the format's whole representable range.
pub proof fn lemma_it_immediate_round_trip(v: u64, w: u32)
    requires
        v < 0x800 || v >= 0xFFFF_FFFF_FFFF_F800,
    ensures
        spec_it_immediate((((v & 0xFFF) as u32) << 20u32) | (w & 0x000F_FFFF)) == v,
{
    let u = (((v & 0xFFF) as u32) << 20u32) | (w & 0x000F_FFFF);
    assert({
        let bits = (u >> 20) & 0xFFF;
        let d = if bits & 0x800 != 0 {
            bits | 0xFFFF_F000u32
        } else {
            bits
        };
        d == (v % 0x1_0000_0000) as u32
    }) by (bit_vector)
        requires
            u == (((v & 0xFFF) as u32) << 20u32) | (w & 0x000F_FFFF),
            v < 0x800 || v >= 0xFFFF_FFFF_FFFF_F800,
    ;
    crate::arith::lemma_sext32_low32(v);
}

/// Law: assembling any sign-extended 12-bit value into the S-format
/// immediate fields of any word and decoding that word's S-immediate yields
/// the value back, over the format's whole representable range.
pub proof fn lemma_st_immediate_round_trip(v: u64, w: u32)
    requires
        v < 0x800 || v >= 0xFFFF_FFFF_FFFF_F800,
    ensures
        spec_st_immediate(
            ((((v >> 5) & 0x7F) as u32) << 25u32) | ((((v & 0x1F) as u32) << 7u32) | (w
                & 0x01FF_F07F)),
        ) == v,
{
    let u = ((((v >> 5) & 0x7F) as u32) << 25u32) | ((((v & 0x1F) as u32) << 7u32) | (w
        & 0x01FF_F07F));
    assert({
        let bits = (((u >> 25) & 0x7F) << 5) | ((u >> 7) & 0x1F);
        let d = if bits & 0x800 != 0 {
            bits | 0xFFFF_F000u32
        } else {
            bits
        };
        d == (v % 0x1_0000_0000) as u32
    }) by (bit_vector)
        requires
            u == ((((v >> 5) & 0x7F) as u32) << 25u32) | ((((v & 0x1F) as u32) << 7u32) | (w
                & 0x01FF_F07F)),
            v < 0x800 || v >= 0xFFFF_FFFF_FFFF_F800,
    ;
    crate::arith::lemma_sext32_low32(v);
}

/// Law: assembling any even sign-extended 13-bit value into the B-format
/// immediate fields of any word and decoding that word's B-immediate yields
/// the value back, over the format's whole representable range.
pub proof fn lemma_bt_immediate_round_trip(v: u64, w: u32)
    requires
        v & 1 == 0,
        v < 0x1000 || v >= 0xFFFF_FFFF_FFFF_F000,
    ensures
        spec_bt_immediate(
            ((((v >> 12) & 0x1) as u32) << 31u32) | (((((v >> 5) & 0x3F) as u32) << 25u32) | (((((v
                >> 1) & 0xF) as u32) << 8u32) | (((((v >> 11) & 0x1) as u32) << 7u32) | (w
                & 0x01FF_F07F)))),
        ) == v,
{
    let u = ((((v >> 12) & 0x1) as u32) << 31u32) | (((((v >> 5) & 0x3F) as u32) << 25u32) | (((((v
        >> 1) & 0xF) as u32) << 8u32) | (((((v >> 11) & 0x1) as u32) << 7u32) | (w
        & 0x01FF_F07F))));
    assert({
        let bits = (((u >> 31) & 0x1) << 12) | ((((u >> 25) & 0x3F) << 5) | (((u >> 8) & 0xF) << 1)
            | (((u >> 7) & 0x1) << 11));
        let d = if bits & 0x1000 != 0 {
            bits | 0xFFFF_E000u32
        } else {
            bits
        };
        d == (v % 0x1_0000_0000) as u32
    }) by (bit_vector)
        requires
            u == ((((v >> 12) & 0x1) as u32) << 31u32) | (((((v >> 5) & 0x3F) as u32) << 25u32) | (
            ((((v >> 1) & 0xF) as u32) << 8u32) | (((((v >> 11) & 0x1) as u32) << 7u32) | (w
                & 0x01FF_F07F)))),
            v & 1 == 0,
            v < 0x1000 || v >= 0xFFFF_FFFF_FFFF_F000,
    ;
    crate::arith::lemma_sext32_low32(v);
}

/// Law: assembling any 32-bit-sign-extended value with zero low 12 bits
/// into the U-format immediate field of any word and decoding that word's
/// U-immediate yields the value back.
pub proof fn lemma_ut_immediate_round_trip(v: u64, w: u32)
    requires
        v & 0xFFF == 0,
        v < 0x8000_0000 || v >= 0xFFFF_FFFF_8000_0000,
    ensures
        spec_ut_immediate((((v >> 12) & 0xF_FFFF) as u32) << 12u32 | (w & 0xFFF)) == v,
{
    let u = (((v >> 12) & 0xF_FFFF) as u32) << 12u32 | (w & 0xFFF);
    assert(u & 0xFFFF_F000 == (v % 0x1_0000_0000) as u32) by (bit_vector)
        requires
            u == (((v >> 12) & 0xF_FFFF) as u32) << 12u32 | (w & 0xFFF),
            v & 0xFFF == 0,
            v < 0x8000_0000 || v >= 0xFFFF_FFFF_8000_0000,
    ;
    crate::arith::lemma_sext32_low32(v);
}

/// Law: assembling any even sign-extended 21-bit value into the J-format
/// immediate fields of any word and decoding that word's J-immediate yields
/// the value back, over the format's whole representable range.
pub proof fn lemma_jt_immediate_round_trip(v: u64, w: u32)
    requires
        v & 1 == 0,
        v < 0x10_0000 || v >= 0xFFFF_FFFF_FFF0_0000,
    ensures
        spec_jt_immediate(
            ((((v >> 20) & 0x1) as u32) << 31u32) | (((((v >> 1) & 0x3FF) as u32) << 21u32) | ((((
            (v >> 11) & 0x1) as u32) << 20u32) | (((((v >> 12) & 0xFF) as u32) << 12u32) | (w
                & 0xFFF)))),
        ) == v,
{
    let u = ((((v >> 20) & 0x1) as u32) << 31u32) | (((((v >> 1) & 0x3FF) as u32) << 21u32) | (((((
    v >> 11) & 0x1) as u32) << 20u32) | (((((v >> 12) & 0xFF) as u32) << 12u32) | (w & 0xFFF))));
    assert({
        let bits = (((u >> 31) & 0x1) << 20) | ((((u >> 21) & 0x3FF) << 1) | (((u >> 20) & 0x1)
            << 11) | (((u >> 12) & 0xFF) << 12));
        let d = if bits & 0x10_0000 != 0 {
            bits | 0xFFE0_0000u32
        } else {
            bits
        };
        d == (v % 0x1_0000_0000) as u32
    }) by (bit_vector)
        requires
            u == ((((v >> 20) & 0x1) as u32) << 31u32) | (((((v >> 1) & 0x3FF) as u32) << 21u32) | (
            ((((v >> 11) & 0x1) as u32) << 20u32) | (((((v >> 12) & 0xFF) as u32) << 12u32) | (w
                & 0xFFF)))),
            v & 1 == 0,
            v < 0x10_0000 || v >= 0xFFFF_FFFF_FFF0_0000,
    ;
    crate::arith::lemma_sext32_low32(v);
}

/// Every fixed field that `spec_instruction` extracts lies within its
/// field's range.
proof fn lemma_field_ranges(w: u32)
    by (bit_vector)
    ensures
        spec_opcode(w) < 128,
        spec_rd(w) < 32,
        spec_rs1(w) < 32,
        spec_rs2(w) < 32,
        spec_func3(w) < 8,
        spec_func7(w) < 128,
        spec_func12(w) < 4096,
{
}

} // verus!
