//! The architectural state of the emulated processor and the
//! dispatch/execution engine that performs one instruction's state
//! transition at a time.
use vstd::prelude::*;

verus! {

use crate::decode::{Mnemonic, spec_decode, decode};
use crate::instruction::{
    Instruction,
    InstrView,
    spec_instruction,
    spec_it_immediate,
    spec_st_immediate,
    spec_bt_immediate,
    spec_ut_immediate,
    spec_jt_immediate,
};
use vstd::arithmetic::div_mod::{
    lemma_fundamental_div_mod,
    lemma_div_denominator,
    lemma_div_pos_is_pos,
    lemma_basic_div,
    lemma_mod_breakdown,
};
use crate::arith::{
    s64,
    sext8,
    sext16,
    sext32,
    low32,
    sra64_spec,
    sra32_spec,
    div_signed_spec,
    rem_signed_spec,
    div_unsigned_spec,
    rem_unsigned_spec,
    div_signed32_spec,
    rem_signed32_spec,
    div_unsigned32_spec,
    rem_unsigned32_spec,
    mulh_spec,
    mulhsu_spec,
    mulhu_spec,
    sign_extend_byte,
    sign_extend_half,
    sign_extend_word,
    low_word,
    signed_less_than,
    div_signed,
    rem_signed,
    div_unsigned,
    rem_unsigned,
    div_signed32,
    rem_signed32,
    div_unsigned32,
    rem_unsigned32,
    mul_high_signed,
    mul_high_signed_unsigned,
    mul_high_unsigned,
    shift_right_arithmetic,
    shift_right_arithmetic32,
};

/// The instruction-address alignment of the base encoding, in bits.
pub const IALIGN: u32 = 32;

/// The width of one instruction word, in bits.
pub const ILEN: u32 = 32;

/// The width of one general-purpose register, in bits.
pub const XLEN: u32 = 64;

/// The privilege levels of the architecture. They exist as architectural
/// state only; no instruction of this core changes or consults them.
pub enum PrivilegeLvel {
    User,
    Supervisor,
    Machine,
}

/// What one execution step did: the instruction was carried out, or its
/// encoding matched no rule of the dispatch table, or it addressed memory
/// outside the loaded image. In the two failure cases the architectural
/// state is left unchanged; the surrounding driver decides how loudly to
/// fail.
#[derive(Debug, Copy, Clone, PartialEq, Eq, Structural)]
pub enum Outcome {
    Executed,
    Unimplemented,
    OutOfBounds,
}

/// The mathematical view of the architectural state: register file,
/// control/status registers, program counter and memory image.
pub ghost struct CpuState {
    pub regs: Seq<u64>,
    pub csrs: Seq<u64>,
    pub pc: u64,
    pub memory: Seq<u8>,
}

/// The architectural state: 31 stored general-purpose registers (register
/// 0 is a wired zero and is not stored), 4096 control/status registers, a
/// program counter holding a byte offset into memory, and the byte-
/// addressable memory image.
pub struct Cpu {
    pub regs: [u64; 31],
    pub csrs: [u64; 4096],
    pub pc: u64,
    pub memory: Vec<u8>,
}

impl View for Cpu {
    type V = CpuState;

    open spec fn view(&self) -> CpuState {
        CpuState { regs: self.regs@, csrs: self.csrs@, pc: self.pc, memory: self.memory@ }
    }
}

/// The value of register `index`: register 0 always reads as zero.
pub open spec fn reg_read(regs: Seq<u64>, index: int) -> u64 {
    if index == 0 {
        0
    } else {
        regs[index - 1]
    }
}

/// The register file after writing `value` to register `index`: register 0
/// discards all writes.
pub open spec fn reg_write(regs: Seq<u64>, index: int, value: u64) -> Seq<u64> {
    if index == 0 {
        regs
    } else {
        regs.update(index - 1, value)
    }
}

/// The 16-bit value stored little-endian at byte offset `a`.
pub open spec fn mem16(mem: Seq<u8>, a: int) -> u16 {
    (mem[a] + mem[a + 1] * 0x100) as u16
}

/// The 32-bit value stored little-endian at byte offset `a`.
pub open spec fn mem32(mem: Seq<u8>, a: int) -> u32 {
    (mem[a] + mem[a + 1] * 0x100 + mem[a + 2] * 0x1_0000 + mem[a + 3] * 0x100_0000) as u32
}

/// The 64-bit value stored little-endian at byte offset `a`.
pub open spec fn mem64(mem: Seq<u8>, a: int) -> u64 {
    (mem[a] + mem[a + 1] * 0x100 + mem[a + 2] * 0x1_0000 + mem[a + 3] * 0x100_0000 + mem[a + 4]
        * 0x1_0000_0000 + mem[a + 5] * 0x100_0000_0000 + mem[a + 6] * 0x1_0000_0000_0000 + mem[a
        + 7] * 0x100_0000_0000_0000) as u64
}

/// The byte at position `i` of the little-endian encoding of `v`: the
/// truncated quotient of `v` by 256^i, reduced modulo 256.
pub open spec fn byte_of(v: u64, i: int) -> u8 {
    if i == 0 {
        (v as int % 0x100) as u8
    } else if i == 1 {
        ((v as int / 0x100) % 0x100) as u8
    } else if i == 2 {
        ((v as int / 0x1_0000) % 0x100) as u8
    } else if i == 3 {
        ((v as int / 0x100_0000) % 0x100) as u8
    } else if i == 4 {
        ((v as int / 0x1_0000_0000) % 0x100) as u8
    } else if i == 5 {
        ((v as int / 0x100_0000_0000) % 0x100) as u8
    } else if i == 6 {
        ((v as int / 0x1_0000_0000_0000) % 0x100) as u8
    } else {
        ((v as int / 0x100_0000_0000_0000) % 0x100) as u8
    }
}

/// The memory image after storing the low 16 bits of `v` little-endian at
/// byte offset `a`.
pub open spec fn put16(mem: Seq<u8>, a: int, v: u64) -> Seq<u8> {
    mem.update(a, byte_of(v, 0)).update(a + 1, byte_of(v, 1))
}

/// The memory image after storing the low 32 bits of `v` little-endian at
/// byte offset `a`.
pub open spec fn put32(mem: Seq<u8>, a: int, v: u64) -> Seq<u8> {
    mem.update(a, byte_of(v, 0)).update(a + 1, byte_of(v, 1)).update(a + 2, byte_of(v, 2)).update(
        a + 3,
        byte_of(v, 3),
    )
}

/// The memory image after storing all 64 bits of `v` little-endian at byte
/// offset `a`.
pub open spec fn put64(mem: Seq<u8>, a: int, v: u64) -> Seq<u8> {
    mem.update(a, byte_of(v, 0)).update(a + 1, byte_of(v, 1)).update(a + 2, byte_of(v, 2)).update(
        a + 3,
        byte_of(v, 3),
    ).update(a + 4, byte_of(v, 4)).update(a + 5, byte_of(v, 5)).update(a + 6, byte_of(v, 6)).update(
        a + 7,
        byte_of(v, 7),
    )
}

impl Cpu {
    /// A processor at startup: registers and control/status registers
    /// zeroed, the program counter at offset 0, and memory holding the
    /// loaded binary image as-is.
    pub fn new(binary: Vec<u8>) -> (r: Self)
        ensures
            r@.regs =~= Seq::new(31, |i: int| 0u64),
            r@.csrs =~= Seq::new(4096, |i: int| 0u64),
            r@.pc == 0,
            r@.memory == binary@,
    {
        Self { regs: [0; 31], csrs: [0; 4096], pc: 0, memory: binary }
    }

    /// The value of general-purpose register `index`; register 0 reads as
    /// the constant 0.
    fn read_gp_reg(&self, index: usize) -> (r: u64)
        requires
            index < 32,
        ensures
            r == reg_read(self@.regs, index as int),
    {
        if index == 0 {
            0
        } else {
            self.regs[index - 1]
        }
    }

    /// Writes `value` to general-purpose register `index`; a write to
    /// register 0 is discarded.
    fn write_gp_reg(&mut self, index: usize, value: u64)
        requires
            index < 32,
        ensures
            final(self)@ == (CpuState {
                regs: reg_write(old(self)@.regs, index as int, value),
                ..old(self)@
            }),
    {
        if index != 0 {
            self.regs[index - 1] = value;
        }
    }

    /// The byte at `address`.
    fn read_u8(&self, address: usize) -> (r: u8)
        requires
            address < self@.memory.len(),
        ensures
            r == self@.memory[address as int],
    {
        self.memory[address]
    }

    /// The 16-bit value stored little-endian at `address`.
    fn read_u16(&self, address: usize) -> (r: u16)
        requires
            address + 2 <= self@.memory.len(),
        ensures
            r == mem16(self@.memory, address as int),
    {
        let len = self.memory.len();
        proof {
            assert(len == self@.memory.len());
        }
        let b0 = self.memory[address];
        let b1 = self.memory[address + 1];
        (b0 as u16) + (b1 as u16) * 0x100
    }

    /// The 32-bit value stored little-endian at `address`.
    fn read_u32(&self, address: usize) -> (r: u32)
        requires
            address + 4 <= self@.memory.len(),
        ensures
            r == mem32(self@.memory, address as int),
    {
        let len = self.memory.len();
        proof {
            assert(len == self@.memory.len());
        }
        let b0 = self.memory[address];
        let b1 = self.memory[address + 1];
        let b2 = self.memory[address + 2];
        let b3 = self.memory[address + 3];
        (b0 as u32) + (b1 as u32) * 0x100 + (b2 as u32) * 0x1_0000 + (b3 as u32) * 0x100_0000
    }

    /// The 64-bit value stored little-endian at `address`.
    fn read_u64(&self, address: usize) -> (r: u64)
        requires
            address + 8 <= self@.memory.len(),
        ensures
            r == mem64(self@.memory, address as int),
    {
        let len = self.memory.len();
        proof {
            assert(len == self@.memory.len());
        }
        let b0 = self.memory[address];
        let b1 = self.memory[address + 1];
        let b2 = self.memory[address + 2];
        let b3 = self.memory[address + 3];
        let b4 = self.memory[address + 4];
        let b5 = self.memory[address + 5];
        let b6 = self.memory[address + 6];
        let b7 = self.memory[address + 7];
        (b0 as u64) + (b1 as u64) * 0x100 + (b2 as u64) * 0x1_0000 + (b3 as u64) * 0x100_0000 + (
        b4 as u64) * 0x1_0000_0000 + (b5 as u64) * 0x100_0000_0000 + (b6 as u64)
            * 0x1_0000_0000_0000 + (b7 as u64) * 0x100_0000_0000_0000
    }

    /// Stores `value` at `address`.
    fn write_u8(&mut self, address: usize, value: u8)
        requires
            address < old(self)@.memory.len(),
        ensures
            final(self)@ == (CpuState {
                memory: old(self)@.memory.update(address as int, value),
                ..old(self)@
            }),
    {
        self.memory[address] = value;
    }

    /// Stores the low 16 bits of `value` little-endian at `address`.
    fn write_u16(&mut self, address: usize, value: u64)
        requires
            address + 2 <= old(self)@.memory.len(),
        ensures
            final(self)@ == (CpuState {
                memory: put16(old(self)@.memory, address as int, value),
                ..old(self)@
            }),
    {
        let len = self.memory.len();
        proof {
            assert(len == self@.memory.len());
        }
        self.memory[address] = (value % 0x100) as u8;
        self.memory[address + 1] = ((value / 0x100) % 0x100) as u8;
    }

    /// Stores the low 32 bits of `value` little-endian at `address`.
    fn write_u32(&mut self, address: usize, value: u64)
        requires
            address + 4 <= old(self)@.memory.len(),
        ensures
            final(self)@ == (CpuState {
                memory: put32(old(self)@.memory, address as int, value),
                ..old(self)@
            }),
    {
        let len = self.memory.len();
        proof {
            assert(len == self@.memory.len());
        }
        self.memory[address] = (value % 0x100) as u8;
        self.memory[address + 1] = ((value / 0x100) % 0x100) as u8;
        self.memory[address + 2] = ((value / 0x1_0000) % 0x100) as u8;
        self.memory[address + 3] = ((value / 0x100_0000) % 0x100) as u8;
    }

    /// Stores all 64 bits of `value` little-endian at `address`.
    fn write_u64(&mut self, address: usize, value: u64)
        requires
            address + 8 <= old(self)@.memory.len(),
        ensures
            final(self)@ == (CpuState {
                memory: put64(old(self)@.memory, address as int, value),
                ..old(self)@
            }),
    {
        let len = self.memory.len();
        proof {
            assert(len == self@.memory.len());
        }
        self.memory[address] = (value % 0x100) as u8;
        self.memory[address + 1] = ((value / 0x100) % 0x100) as u8;
        self.memory[address + 2] = ((value / 0x1_0000) % 0x100) as u8;
        self.memory[address + 3] = ((value / 0x100_0000) % 0x100) as u8;
        self.memory[address + 4] = ((value / 0x1_0000_0000) % 0x100) as u8;
        self.memory[address + 5] = ((value / 0x100_0000_0000) % 0x100) as u8;
        self.memory[address + 6] = ((value / 0x1_0000_0000_0000) % 0x100) as u8;
        self.memory[address + 7] = ((value / 0x100_0000_0000_0000) % 0x100) as u8;
    }
}

/// Law: register 0 is a wired constant. A write to any register never
/// disturbs it: after writing any value to any register index, register 0
/// still reads as 0, and a write to register 0 itself leaves the whole
/// register file unchanged.
pub proof fn lemma_register_zero_invariant(regs: Seq<u64>, index: int, value: u64)
    ensures
        reg_read(reg_write(regs, index, value), 0) == 0,
        reg_write(regs, 0, value) == regs,
{
}

/// Law: storing a 64-bit value little-endian at offset `a` and reading
/// eight bytes back from `a` reproduces the value exactly; each single
/// byte read from `a + k` is byte `k` of the value, so a narrower load
/// extracts the correct byte (zero extension of the low byte is its value
/// modulo 256); and no byte outside the stored range changes.
pub proof fn lemma_store_load_round_trip(mem: Seq<u8>, a: int, v: u64)
    requires
        0 <= a,
        a + 8 <= mem.len(),
    ensures
        mem64(put64(mem, a, v), a) == v,
        forall|k: int| 0 <= k < 8 ==> put64(mem, a, v)[a + k] == byte_of(v, k),
        byte_of(v, 0) as u64 == v as int % 0x100,
        forall|j: int| 0 <= j < mem.len() && !(a <= j < a + 8) ==> put64(mem, a, v)[j] == mem[j],
{
    lemma_byte_decomposition(v);
}

/// Law: storing the low 16 or 32 bits of a value little-endian and reading
/// the same width back yields the value reduced to that width.
pub proof fn lemma_store_load_narrow(mem: Seq<u8>, a: int, v: u64)
    requires
        0 <= a,
        a + 4 <= mem.len(),
    ensures
        mem16(put16(mem, a, v), a) == v as int % 0x1_0000,
        mem32(put32(mem, a, v), a) == v as int % 0x1_0000_0000,
{
    lemma_byte_decomposition(v);
}

/// A 64-bit value equals the little-endian sum of its eight bytes.
proof fn lemma_byte_decomposition(v: u64)
    ensures
        v == byte_of(v, 0) + byte_of(v, 1) * 0x100 + byte_of(v, 2) * 0x1_0000 + byte_of(v, 3)
            * 0x100_0000 + byte_of(v, 4) * 0x1_0000_0000 + byte_of(v, 5) * 0x100_0000_0000
            + byte_of(v, 6) * 0x1_0000_0000_0000 + byte_of(v, 7) * 0x100_0000_0000_0000,
        v as int % 0x1_0000 == byte_of(v, 0) + byte_of(v, 1) * 0x100,
        v as int % 0x1_0000_0000 == byte_of(v, 0) + byte_of(v, 1) * 0x100 + byte_of(v, 2)
            * 0x1_0000 + byte_of(v, 3) * 0x100_0000,
{
    let x = v as int;
    let q1 = x / 0x100;
    let q2 = x / 0x1_0000;
    let q3 = x / 0x100_0000;
    let q4 = x / 0x1_0000_0000;
    let q5 = x / 0x100_0000_0000;
    let q6 = x / 0x1_0000_0000_0000;
    let q7 = x / 0x100_0000_0000_0000;
    lemma_div_denominator(x, 0x100, 0x100);
    lemma_div_denominator(x, 0x1_0000, 0x100);
    lemma_div_denominator(x, 0x100_0000, 0x100);
    lemma_div_denominator(x, 0x1_0000_0000, 0x100);
    lemma_div_denominator(x, 0x100_0000_0000, 0x100);
    lemma_div_denominator(x, 0x1_0000_0000_0000, 0x100);
    lemma_div_pos_is_pos(x, 0x100);
    lemma_div_pos_is_pos(x, 0x1_0000);
    lemma_div_pos_is_pos(x, 0x100_0000);
    lemma_div_pos_is_pos(x, 0x1_0000_0000);
    lemma_div_pos_is_pos(x, 0x100_0000_0000);
    lemma_div_pos_is_pos(x, 0x1_0000_0000_0000);
    lemma_div_pos_is_pos(x, 0x100_0000_0000_0000);
    lemma_fundamental_div_mod(x, 0x100);
    lemma_fundamental_div_mod(q1, 0x100);
    lemma_fundamental_div_mod(q2, 0x100);
    lemma_fundamental_div_mod(q3, 0x100);
    lemma_fundamental_div_mod(q4, 0x100);
    lemma_fundamental_div_mod(q5, 0x100);
    lemma_fundamental_div_mod(q6, 0x100);
    lemma_basic_div(q7, 0x100);
    lemma_fundamental_div_mod(q7, 0x100);
    // The two narrower prefixes follow from splitting off the high part.
    lemma_mod_breakdown(x, 0x100, 0x100);
    lemma_mod_breakdown(x, 0x100, 0x100_0000);
    lemma_mod_breakdown(q1, 0x100, 0x1_0000);
    lemma_mod_breakdown(q2, 0x100, 0x100);
}

/// The state with `value` written to register `rd` and nothing else
/// changed.
pub open spec fn with_rd(s: CpuState, rd: int, value: u64) -> CpuState {
    CpuState { regs: reg_write(s.regs, rd, value), ..s }
}

/// The state transition and outcome of one instruction. `s.pc` has already
/// been advanced past the instruction by the driving loop, so the address
/// of the instruction itself is `s.pc - 4`.
///
/// Two semantics choices are deliberate. Remainder by zero returns the
/// dividend unchanged (sign-extended for the word forms), the canonical
/// contract for the architecture. The unsigned set-below-immediate
/// comparison is a single unsigned compare of the full register against the
/// sign-extended immediate, with register 0 reading as the constant 0.
pub open spec fn step(s: CpuState, i: InstrView) -> (CpuState, Outcome) {
    let x = reg_read(s.regs, i.rs1 as int);
    let y = reg_read(s.regs, i.rs2 as int);
    let rd = i.rd as int;
    match spec_decode(i) {
        Mnemonic::Lui => (with_rd(s, rd, spec_ut_immediate(i.raw)), Outcome::Executed),
        Mnemonic::Auipc => (
            with_rd(s, rd, ((s.pc - 4) as u64).wrapping_add(spec_ut_immediate(i.raw))),
            Outcome::Executed,
        ),
        Mnemonic::Jal => (
            CpuState {
                regs: reg_write(s.regs, rd, s.pc),
                pc: ((s.pc - 4) as u64).wrapping_add(spec_jt_immediate(i.raw)),
                ..s
            },
            Outcome::Executed,
        ),
        Mnemonic::Jalr => (
            CpuState {
                regs: reg_write(s.regs, rd, s.pc),
                pc: x.wrapping_add(spec_it_immediate(i.raw)) & 0xFFFF_FFFF_FFFF_FFFEu64,
                ..s
            },
            Outcome::Executed,
        ),
        Mnemonic::Beq => (branch(s, x == y, i), Outcome::Executed),
        Mnemonic::Bne => (branch(s, x != y, i), Outcome::Executed),
        Mnemonic::Blt => (branch(s, s64(x) < s64(y), i), Outcome::Executed),
        Mnemonic::Bge => (branch(s, s64(x) >= s64(y), i), Outcome::Executed),
        Mnemonic::Bltu => (branch(s, x < y, i), Outcome::Executed),
        Mnemonic::Bgeu => (branch(s, x >= y, i), Outcome::Executed),
        Mnemonic::Lb => {
            let ea = x.wrapping_add(spec_it_immediate(i.raw));
            if ea + 1 <= s.memory.len() {
                (with_rd(s, rd, sext8(s.memory[ea as int])), Outcome::Executed)
            } else {
                (s, Outcome::OutOfBounds)
            }
        },
        Mnemonic::Lh => {
            let ea = x.wrapping_add(spec_it_immediate(i.raw));
            if ea + 2 <= s.memory.len() {
                (with_rd(s, rd, sext16(mem16(s.memory, ea as int))), Outcome::Executed)
            } else {
                (s, Outcome::OutOfBounds)
            }
        },
        Mnemonic::Lw => {
            let ea = x.wrapping_add(spec_it_immediate(i.raw));
            if ea + 4 <= s.memory.len() {
                (with_rd(s, rd, sext32(mem32(s.memory, ea as int))), Outcome::Executed)
            } else {
                (s, Outcome::OutOfBounds)
            }
        },
        Mnemonic::Lbu => {
            let ea = x.wrapping_add(spec_it_immediate(i.raw));
            if ea + 1 <= s.memory.len() {
                (with_rd(s, rd, s.memory[ea as int] as u64), Outcome::Executed)
            } else {
                (s, Outcome::OutOfBounds)
            }
        },
        Mnemonic::Lhu => {
            let ea = x.wrapping_add(spec_it_immediate(i.raw));
            if ea + 2 <= s.memory.len() {
                (with_rd(s, rd, mem16(s.memory, ea as int) as u64), Outcome::Executed)
            } else {
                (s, Outcome::OutOfBounds)
            }
        },
        Mnemonic::Lwu => {
            let ea = x.wrapping_add(spec_it_immediate(i.raw));
            if ea + 4 <= s.memory.len() {
                (with_rd(s, rd, mem32(s.memory, ea as int) as u64), Outcome::Executed)
            } else {
                (s, Outcome::OutOfBounds)
            }
        },
        Mnemonic::Ld => {
            let ea = x.wrapping_add(spec_it_immediate(i.raw));
            if ea + 8 <= s.memory.len() {
                (with_rd(s, rd, mem64(s.memory, ea as int)), Outcome::Executed)
            } else {
                (s, Outcome::OutOfBounds)
            }
        },
        Mnemonic::Sb => {
            let ea = x.wrapping_add(spec_st_immediate(i.raw));
            if ea + 1 <= s.memory.len() {
                (
                    CpuState { memory: s.memory.update(ea as int, byte_of(y, 0)), ..s },
                    Outcome::Executed,
                )
            } else {
                (s, Outcome::OutOfBounds)
            }
        },
        Mnemonic::Sh => {
            let ea = x.wrapping_add(spec_st_immediate(i.raw));
            if ea + 2 <= s.memory.len() {
                (CpuState { memory: put16(s.memory, ea as int, y), ..s }, Outcome::Executed)
            } else {
                (s, Outcome::OutOfBounds)
            }
        },
        Mnemonic::Sw => {
            let ea = x.wrapping_add(spec_st_immediate(i.raw));
            if ea + 4 <= s.memory.len() {
                (CpuState { memory: put32(s.memory, ea as int, y), ..s }, Outcome::Executed)
            } else {
                (s, Outcome::OutOfBounds)
            }
        },
        Mnemonic::Sd => {
            let ea = x.wrapping_add(spec_st_immediate(i.raw));
            if ea + 8 <= s.memory.len() {
                (CpuState { memory: put64(s.memory, ea as int, y), ..s }, Outcome::Executed)
            } else {
                (s, Outcome::OutOfBounds)
            }
        },
        Mnemonic::Addi => (
            with_rd(s, rd, x.wrapping_add(spec_it_immediate(i.raw))),
            Outcome::Executed,
        ),
        Mnemonic::Slti => (
            with_rd(
                s,
                rd,
                if s64(x) < s64(spec_it_immediate(i.raw)) {
                    1
                } else {
                    0
                },
            ),
            Outcome::Executed,
        ),
        Mnemonic::Sltiu => (
            with_rd(
                s,
                rd,
                if x < spec_it_immediate(i.raw) {
                    1
                } else {
                    0
                },
            ),
            Outcome::Executed,
        ),
        Mnemonic::Xori => (with_rd(s, rd, x ^ spec_it_immediate(i.raw)), Outcome::Executed),
        Mnemonic::Ori => (with_rd(s, rd, x | spec_it_immediate(i.raw)), Outcome::Executed),
        Mnemonic::Andi => (with_rd(s, rd, x & spec_it_immediate(i.raw)), Outcome::Executed),
        Mnemonic::Slli => (with_rd(s, rd, x << (i.rs2 as u64)), Outcome::Executed),
        Mnemonic::Srli => (with_rd(s, rd, x >> (i.rs2 as u64)), Outcome::Executed),
        Mnemonic::Srai => (with_rd(s, rd, sra64_spec(x, i.rs2 as u64)), Outcome::Executed),
        Mnemonic::Add => (with_rd(s, rd, x.wrapping_add(y)), Outcome::Executed),
        Mnemonic::Sub => (with_rd(s, rd, x.wrapping_sub(y)), Outcome::Executed),
        Mnemonic::Sll => (with_rd(s, rd, x << (y & 0x3F)), Outcome::Executed),
        Mnemonic::Slt => (
            with_rd(
                s,
                rd,
                if s64(x) < s64(y) {
                    1
                } else {
                    0
                },
            ),
            Outcome::Executed,
        ),
        Mnemonic::Sltu => (
            with_rd(
                s,
                rd,
                if x < y {
                    1
                } else {
                    0
                },
            ),
            Outcome::Executed,
        ),
        Mnemonic::Xor => (with_rd(s, rd, x ^ y), Outcome::Executed),
        Mnemonic::Srl => (with_rd(s, rd, x >> (y & 0x3F)), Outcome::Executed),
        Mnemonic::Sra => (with_rd(s, rd, sra64_spec(x, y & 0x3F)), Outcome::Executed),
        Mnemonic::Or => (with_rd(s, rd, x | y), Outcome::Executed),
        Mnemonic::And => (with_rd(s, rd, x & y), Outcome::Executed),
        Mnemonic::Addiw => (
            with_rd(s, rd, sext32(low32(x.wrapping_add(spec_it_immediate(i.raw))))),
            Outcome::Executed,
        ),
        Mnemonic::Slliw => (
            with_rd(s, rd, sext32(low32(x) << (i.rs2 as u32))),
            Outcome::Executed,
        ),
        Mnemonic::Srliw => (
            with_rd(s, rd, sext32(low32(x) >> (i.rs2 as u32))),
            Outcome::Executed,
        ),
        Mnemonic::Sraiw => (
            with_rd(s, rd, sext32(sra32_spec(low32(x), i.rs2 as u32))),
            Outcome::Executed,
        ),
        Mnemonic::Addw => (
            with_rd(s, rd, sext32(low32(x.wrapping_add(y)))),
            Outcome::Executed,
        ),
        Mnemonic::Subw => (
            with_rd(s, rd, sext32(low32(x.wrapping_sub(y)))),
            Outcome::Executed,
        ),
        Mnemonic::Sllw => (
            with_rd(s, rd, sext32(low32(x) << ((y & 0x1F) as u32))),
            Outcome::Executed,
        ),
        Mnemonic::Srlw => (
            with_rd(s, rd, sext32(low32(x) >> ((y & 0x1F) as u32))),
            Outcome::Executed,
        ),
        Mnemonic::Sraw => (
            with_rd(s, rd, sext32(sra32_spec(low32(x), (y & 0x1F) as u32))),
            Outcome::Executed,
        ),
        Mnemonic::Mul => (with_rd(s, rd, x.wrapping_mul(y)), Outcome::Executed),
        Mnemonic::Mulh => (with_rd(s, rd, mulh_spec(x, y)), Outcome::Executed),
        Mnemonic::Mulhsu => (with_rd(s, rd, mulhsu_spec(x, y)), Outcome::Executed),
        Mnemonic::Mulhu => (with_rd(s, rd, mulhu_spec(x, y)), Outcome::Executed),
        Mnemonic::Div => (with_rd(s, rd, div_signed_spec(x, y)), Outcome::Executed),
        Mnemonic::Divu => (with_rd(s, rd, div_unsigned_spec(x, y)), Outcome::Executed),
        Mnemonic::Rem => (with_rd(s, rd, rem_signed_spec(x, y)), Outcome::Executed),
        Mnemonic::Remu => (with_rd(s, rd, rem_unsigned_spec(x, y)), Outcome::Executed),
        Mnemonic::Mulw => (
            with_rd(s, rd, sext32(low32(x).wrapping_mul(low32(y)))),
            Outcome::Executed,
        ),
        Mnemonic::Divw => (
            with_rd(s, rd, sext32(div_signed32_spec(low32(x), low32(y)))),
            Outcome::Executed,
        ),
        Mnemonic::Divuw => (
            with_rd(s, rd, sext32(div_unsigned32_spec(low32(x), low32(y)))),
            Outcome::Executed,
        ),
        Mnemonic::Remw => (
            with_rd(s, rd, sext32(rem_signed32_spec(low32(x), low32(y)))),
            Outcome::Executed,
        ),
        Mnemonic::Remuw => (
            with_rd(s, rd, sext32(rem_unsigned32_spec(low32(x), low32(y)))),
            Outcome::Executed,
        ),
        Mnemonic::Unimplemented => (s, Outcome::Unimplemented),
        _ => (s, Outcome::Executed),
    }
}

/// Law: the wired-zero register holds across whole instructions. Any
/// instruction whose destination field is register 0 leaves the entire
/// register file unchanged, whatever else it does.
pub proof fn lemma_step_rd_zero_preserves_registers(s: CpuState, i: InstrView)
    requires
        i.rd == 0,
    ensures
        step(s, i).0.regs == s.regs,
{
}

/// Law: one step never touches the control/status registers, never changes
/// the size of the memory image, and never changes the size of the register
/// file: executing is a pure transformation of the architectural state.
#[verifier::rlimit(100)]
pub proof fn lemma_step_frame(s: CpuState, i: InstrView)
    requires
        s.regs.len() == 31,
        i.rd < 32,
    ensures
        step(s, i).0.csrs == s.csrs,
        step(s, i).0.memory.len() == s.memory.len(),
        step(s, i).0.regs.len() == s.regs.len(),
{
}

/// The state after a conditional branch: on a true condition the program
/// counter moves to the instruction's address plus the B-format offset;
/// otherwise it stays at its already-advanced value.
pub open spec fn branch(s: CpuState, condition: bool, i: InstrView) -> CpuState {
    if condition {
        CpuState { pc: ((s.pc - 4) as u64).wrapping_add(spec_bt_immediate(i.raw)), ..s }
    } else {
        s
    }
}

impl Cpu {
    /// The values of the two source registers that `instruction` names.
    fn values_from_registers(&self, instruction: &Instruction) -> (r: (u64, u64))
        requires
            instruction@.rs1 < 32,
            instruction@.rs2 < 32,
        ensures
            r.0 == reg_read(self@.regs, instruction@.rs1 as int),
            r.1 == reg_read(self@.regs, instruction@.rs2 as int),
    {
        (self.read_gp_reg(instruction.rs1), self.read_gp_reg(instruction.rs2))
    }

    /// The low 32 bits of the two source registers that `instruction`
    /// names.
    fn u32_values_from_registers(&self, instruction: &Instruction) -> (r: (u32, u32))
        requires
            instruction@.rs1 < 32,
            instruction@.rs2 < 32,
        ensures
            r.0 == low32(reg_read(self@.regs, instruction@.rs1 as int)),
            r.1 == low32(reg_read(self@.regs, instruction@.rs2 as int)),
    {
        let (a, b) = self.values_from_registers(instruction);
        (low_word(a), low_word(b))
    }

    /// The effective address of an I-format instruction: the first source
    /// register plus the sign-extended I-immediate, as a 64-bit wrapping
    /// add.
    fn address_from_it(&self, instruction: &Instruction) -> (t: u64)
        requires
            instruction@.rs1 < 32,
        ensures
            t == reg_read(self@.regs, instruction@.rs1 as int).wrapping_add(
                spec_it_immediate(instruction@.raw),
            ),
    {
        let base = self.read_gp_reg(instruction.rs1);
        base.wrapping_add(instruction.it_immediate())
    }

    /// The effective address of an S-format store: the first source
    /// register plus the sign-extended S-immediate.
    fn address_from_st(&self, instruction: &Instruction) -> (t: u64)
        requires
            instruction@.rs1 < 32,
        ensures
            t == reg_read(self@.regs, instruction@.rs1 as int).wrapping_add(
                spec_st_immediate(instruction@.raw),
            ),
    {
        let base = self.read_gp_reg(instruction.rs1);
        base.wrapping_add(instruction.st_immediate())
    }

    /// The target of a conditional branch relative to `base`, the address
    /// of the branch instruction itself.
    fn address_from_bt(&self, base: u64, instruction: &Instruction) -> (t: u64)
        ensures
            t == base.wrapping_add(spec_bt_immediate(instruction@.raw)),
    {
        base.wrapping_add(instruction.bt_immediate())
    }

    /// The target of a jump-and-link: the address of the instruction itself
    /// plus the J-format offset. The observed program counter has already
    /// been advanced past the instruction.
    fn address_from_jt(&self, instruction: &Instruction) -> (t: u64)
        requires
            self@.pc >= 4,
        ensures
            t == ((self@.pc - 4) as u64).wrapping_add(spec_jt_immediate(instruction@.raw)),
    {
        (self.pc - 4).wrapping_add(instruction.jt_immediate())
    }

    /// The address that AUIPC computes: the address of the instruction
    /// itself plus the U-format immediate.
    fn address_from_ut(&self, instruction: &Instruction) -> (t: u64)
        requires
            self@.pc >= 4,
        ensures
            t == ((self@.pc - 4) as u64).wrapping_add(spec_ut_immediate(instruction@.raw)),
    {
        (self.pc - 4).wrapping_add(instruction.ut_immediate())
    }

    /// Whether `count` bytes starting at `ea` lie inside the memory image.
    fn ea_in_bounds(&self, ea: u64, count: u64) -> (r: bool)
        ensures
            r == (ea + count <= self@.memory.len()),
    {
        let len = self.memory.len();
        proof {
            assert(len == self@.memory.len());
        }
        count <= len as u64 && ea <= len as u64 - count
    }

    /// Reads the raw instruction word at the current program counter,
    /// little-endian, without decoding beyond the fixed fields.
    pub fn fetch(&self) -> (r: Instruction)
        requires
            self@.pc + 4 <= self@.memory.len(),
        ensures
            r@ == spec_instruction(mem32(self@.memory, self@.pc as int)),
            r@.rd < 32 && r@.rs1 < 32 && r@.rs2 < 32,
    {
        let len = self.memory.len();
        proof {
            assert(len == self@.memory.len());
        }
        let word = self.read_u32(self.pc as usize);
        Instruction::new(word)
    }

    /// The upper-immediate and jump instructions.
    fn exec_upper_and_jumps(&mut self, instruction: &Instruction, m: Mnemonic) -> (r: Outcome)
        requires
            old(self)@.pc >= 4,
            instruction@.rd < 32,
            instruction@.rs1 < 32,
            instruction@.rs2 < 32,
            m == spec_decode(instruction@),
            (m matches Mnemonic::Lui
                || m matches Mnemonic::Auipc
                || m matches Mnemonic::Jal
                || m matches Mnemonic::Jalr),
        ensures
            ({
                let (s2, out) = step(old(self)@, instruction@);
                final(self)@ == s2 && r == out
            }),
    {
        match m {
            Mnemonic::Lui => {
                let imm = instruction.ut_immediate();
                self.write_gp_reg(instruction.rd, imm);
                Outcome::Executed
            },
            Mnemonic::Auipc => {
                let t = self.address_from_ut(instruction);
                self.write_gp_reg(instruction.rd, t);
                Outcome::Executed
            },
            Mnemonic::Jal => {
                let t = self.address_from_jt(instruction);
                self.write_gp_reg(instruction.rd, self.pc);
                self.pc = t;
                Outcome::Executed
            },
            Mnemonic::Jalr => {
                let t = self.address_from_it(instruction) & 0xFFFF_FFFF_FFFF_FFFEu64;
                self.write_gp_reg(instruction.rd, self.pc);
                self.pc = t;
                Outcome::Executed
            },
            _ => unreached(),
        }
    }

    /// The conditional branches.
    fn exec_branches(&mut self, instruction: &Instruction, m: Mnemonic) -> (r: Outcome)
        requires
            old(self)@.pc >= 4,
            instruction@.rd < 32,
            instruction@.rs1 < 32,
            instruction@.rs2 < 32,
            m == spec_decode(instruction@),
            (m matches Mnemonic::Beq
                || m matches Mnemonic::Bne
                || m matches Mnemonic::Blt
                || m matches Mnemonic::Bge
                || m matches Mnemonic::Bltu
                || m matches Mnemonic::Bgeu),
        ensures
            ({
                let (s2, out) = step(old(self)@, instruction@);
                final(self)@ == s2 && r == out
            }),
    {
        match m {
            Mnemonic::Beq => {
                let (a, b) = self.values_from_registers(instruction);
                if a == b {
                    self.pc = self.address_from_bt(self.pc - 4, instruction);
                }
                Outcome::Executed
            },
            Mnemonic::Bne => {
                let (a, b) = self.values_from_registers(instruction);
                if a != b {
                    self.pc = self.address_from_bt(self.pc - 4, instruction);
                }
                Outcome::Executed
            },
            Mnemonic::Blt => {
                let (a, b) = self.values_from_registers(instruction);
                if signed_less_than(a, b) {
                    self.pc = self.address_from_bt(self.pc - 4, instruction);
                }
                Outcome::Executed
            },
            Mnemonic::Bge => {
                let (a, b) = self.values_from_registers(instruction);
                if !signed_less_than(a, b) {
                    self.pc = self.address_from_bt(self.pc - 4, instruction);
                }
                Outcome::Executed
            },
            Mnemonic::Bltu => {
                let (a, b) = self.values_from_registers(instruction);
                if a < b {
                    self.pc = self.address_from_bt(self.pc - 4, instruction);
                }
                Outcome::Executed
            },
            Mnemonic::Bgeu => {
                let (a, b) = self.values_from_registers(instruction);
                if a >= b {
                    self.pc = self.address_from_bt(self.pc - 4, instruction);
                }
                Outcome::Executed
            },
            _ => unreached(),
        }
    }

    /// The register-immediate arithmetic, logic and shift instructions.
    fn exec_alu_immediate(&mut self, instruction: &Instruction, m: Mnemonic) -> (r: Outcome)
        requires
            old(self)@.pc >= 4,
            instruction@.rd < 32,
            instruction@.rs1 < 32,
            instruction@.rs2 < 32,
            m == spec_decode(instruction@),
            (m matches Mnemonic::Addi
                || m matches Mnemonic::Slti
                || m matches Mnemonic::Sltiu
                || m matches Mnemonic::Xori
                || m matches Mnemonic::Ori
                || m matches Mnemonic::Andi
                || m matches Mnemonic::Slli
                || m matches Mnemonic::Srli
                || m matches Mnemonic::Srai),
        ensures
            ({
                let (s2, out) = step(old(self)@, instruction@);
                final(self)@ == s2 && r == out
            }),
    {
        match m {
            Mnemonic::Addi => {
                let v = self.address_from_it(instruction);
                self.write_gp_reg(instruction.rd, v);
                Outcome::Executed
            },
            Mnemonic::Slti => {
                let imm = instruction.it_immediate();
                let a = self.read_gp_reg(instruction.rs1);
                let v: u64 = if signed_less_than(a, imm) {
                    1
                } else {
                    0
                };
                self.write_gp_reg(instruction.rd, v);
                Outcome::Executed
            },
            Mnemonic::Sltiu => {
                let imm = instruction.it_immediate();
                let a = self.read_gp_reg(instruction.rs1);
                let v: u64 = if a < imm {
                    1
                } else {
                    0
                };
                self.write_gp_reg(instruction.rd, v);
                Outcome::Executed
            },
            Mnemonic::Xori => {
                let imm = instruction.it_immediate();
                let a = self.read_gp_reg(instruction.rs1);
                self.write_gp_reg(instruction.rd, a ^ imm);
                Outcome::Executed
            },
            Mnemonic::Ori => {
                let imm = instruction.it_immediate();
                let a = self.read_gp_reg(instruction.rs1);
                self.write_gp_reg(instruction.rd, a | imm);
                Outcome::Executed
            },
            Mnemonic::Andi => {
                let imm = instruction.it_immediate();
                let a = self.read_gp_reg(instruction.rs1);
                self.write_gp_reg(instruction.rd, a & imm);
                Outcome::Executed
            },
            Mnemonic::Slli => {
                let a = self.read_gp_reg(instruction.rs1);
                let sh = instruction.rs2 as u64;
                self.write_gp_reg(instruction.rd, a << sh);
                Outcome::Executed
            },
            Mnemonic::Srli => {
                let a = self.read_gp_reg(instruction.rs1);
                let sh = instruction.rs2 as u64;
                self.write_gp_reg(instruction.rd, a >> sh);
                Outcome::Executed
            },
            Mnemonic::Srai => {
                let a = self.read_gp_reg(instruction.rs1);
                let sh = instruction.rs2 as u64;
                self.write_gp_reg(instruction.rd, shift_right_arithmetic(a, sh));
                Outcome::Executed
            },
            _ => unreached(),
        }
    }

    /// The register-register arithmetic, logic, shift, compare and
    /// multiply/divide instructions.
    fn exec_alu_register(&mut self, instruction: &Instruction, m: Mnemonic) -> (r: Outcome)
        requires
            old(self)@.pc >= 4,
            instruction@.rd < 32,
            instruction@.rs1 < 32,
            instruction@.rs2 < 32,
            m == spec_decode(instruction@),
            (m matches Mnemonic::Add
                || m matches Mnemonic::Sub
                || m matches Mnemonic::Sll
                || m matches Mnemonic::Slt
                || m matches Mnemonic::Sltu
                || m matches Mnemonic::Xor
                || m matches Mnemonic::Srl
                || m matches Mnemonic::Sra
                || m matches Mnemonic::Or
                || m matches Mnemonic::And
                || m matches Mnemonic::Mul
                || m matches Mnemonic::Mulh
                || m matches Mnemonic::Mulhsu
                || m matches Mnemonic::Mulhu
                || m matches Mnemonic::Div
                || m matches Mnemonic::Divu
                || m matches Mnemonic::Rem
                || m matches Mnemonic::Remu),
        ensures
            ({
                let (s2, out) = step(old(self)@, instruction@);
                final(self)@ == s2 && r == out
            }),
    {
        proof {
            crate::arith::lemma_shift_mask_bounds();
        }
        match m {
            Mnemonic::Add => {
                let (a, b) = self.values_from_registers(instruction);
                self.write_gp_reg(instruction.rd, a.wrapping_add(b));
                Outcome::Executed
            },
            Mnemonic::Sub => {
                let (a, b) = self.values_from_registers(instruction);
                self.write_gp_reg(instruction.rd, a.wrapping_sub(b));
                Outcome::Executed
            },
            Mnemonic::Sll => {
                let (a, b) = self.values_from_registers(instruction);
                self.write_gp_reg(instruction.rd, a << (b & 0x3F));
                Outcome::Executed
            },
            Mnemonic::Slt => {
                let (a, b) = self.values_from_registers(instruction);
                let v: u64 = if signed_less_than(a, b) {
                    1
                } else {
                    0
                };
                self.write_gp_reg(instruction.rd, v);
                Outcome::Executed
            },
            Mnemonic::Sltu => {
                let (a, b) = self.values_from_registers(instruction);
                let v: u64 = if a < b {
                    1
                } else {
                    0
                };
                self.write_gp_reg(instruction.rd, v);
                Outcome::Executed
            },
            Mnemonic::Xor => {
                let (a, b) = self.values_from_registers(instruction);
                self.write_gp_reg(instruction.rd, a ^ b);
                Outcome::Executed
            },
            Mnemonic::Srl => {
                let (a, b) = self.values_from_registers(instruction);
                self.write_gp_reg(instruction.rd, a >> (b & 0x3F));
                Outcome::Executed
            },
            Mnemonic::Sra => {
                let (a, b) = self.values_from_registers(instruction);
                self.write_gp_reg(instruction.rd, shift_right_arithmetic(a, b & 0x3F));
                Outcome::Executed
            },
            Mnemonic::Or => {
                let (a, b) = self.values_from_registers(instruction);
                self.write_gp_reg(instruction.rd, a | b);
                Outcome::Executed
            },
            Mnemonic::And => {
                let (a, b) = self.values_from_registers(instruction);
                self.write_gp_reg(instruction.rd, a & b);
                Outcome::Executed
            },
            Mnemonic::Mul => {
                let (a, b) = self.values_from_registers(instruction);
                self.write_gp_reg(instruction.rd, a.wrapping_mul(b));
                Outcome::Executed
            },
            Mnemonic::Mulh => {
                let (a, b) = self.values_from_registers(instruction);
                self.write_gp_reg(instruction.rd, mul_high_signed(a, b));
                Outcome::Executed
            },
            Mnemonic::Mulhsu => {
                let (a, b) = self.values_from_registers(instruction);
                self.write_gp_reg(instruction.rd, mul_high_signed_unsigned(a, b));
                Outcome::Executed
            },
            Mnemonic::Mulhu => {
                let (a, b) = self.values_from_registers(instruction);
                self.write_gp_reg(instruction.rd, mul_high_unsigned(a, b));
                Outcome::Executed
            },
            Mnemonic::Div => {
                let (a, b) = self.values_from_registers(instruction);
                self.write_gp_reg(instruction.rd, div_signed(a, b));
                Outcome::Executed
            },
            Mnemonic::Divu => {
                let (a, b) = self.values_from_registers(instruction);
                self.write_gp_reg(instruction.rd, div_unsigned(a, b));
                Outcome::Executed
            },
            Mnemonic::Rem => {
                let (a, b) = self.values_from_registers(instruction);
                self.write_gp_reg(instruction.rd, rem_signed(a, b));
                Outcome::Executed
            },
            Mnemonic::Remu => {
                let (a, b) = self.values_from_registers(instruction);
                self.write_gp_reg(instruction.rd, rem_unsigned(a, b));
                Outcome::Executed
            },
            _ => unreached(),
        }
    }

    /// The 32-bit-result instructions: each computes in 32 bits and
    /// sign-extends the result to the register width.
    fn exec_alu_word(&mut self, instruction: &Instruction, m: Mnemonic) -> (r: Outcome)
        requires
            old(self)@.pc >= 4,
            instruction@.rd < 32,
            instruction@.rs1 < 32,
            instruction@.rs2 < 32,
            m == spec_decode(instruction@),
            (m matches Mnemonic::Addiw
                || m matches Mnemonic::Slliw
                || m matches Mnemonic::Srliw
                || m matches Mnemonic::Sraiw
                || m matches Mnemonic::Addw
                || m matches Mnemonic::Subw
                || m matches Mnemonic::Sllw
                || m matches Mnemonic::Srlw
                || m matches Mnemonic::Sraw
                || m matches Mnemonic::Mulw
                || m matches Mnemonic::Divw
                || m matches Mnemonic::Divuw
                || m matches Mnemonic::Remw
                || m matches Mnemonic::Remuw),
        ensures
            ({
                let (s2, out) = step(old(self)@, instruction@);
                final(self)@ == s2 && r == out
            }),
    {
        proof {
            crate::arith::lemma_shift_mask_bounds();
        }
        match m {
            Mnemonic::Addiw => {
                let v = self.address_from_it(instruction);
                self.write_gp_reg(instruction.rd, sign_extend_word(low_word(v)));
                Outcome::Executed
            },
            Mnemonic::Slliw => {
                let a = self.read_gp_reg(instruction.rs1);
                let sh = instruction.rs2 as u32;
                self.write_gp_reg(instruction.rd, sign_extend_word(low_word(a) << sh));
                Outcome::Executed
            },
            Mnemonic::Srliw => {
                let a = self.read_gp_reg(instruction.rs1);
                let sh = instruction.rs2 as u32;
                self.write_gp_reg(instruction.rd, sign_extend_word(low_word(a) >> sh));
                Outcome::Executed
            },
            Mnemonic::Sraiw => {
                let a = self.read_gp_reg(instruction.rs1);
                let sh = instruction.rs2 as u32;
                self.write_gp_reg(
                    instruction.rd,
                    sign_extend_word(shift_right_arithmetic32(low_word(a), sh)),
                );
                Outcome::Executed
            },
            Mnemonic::Addw => {
                let (a, b) = self.values_from_registers(instruction);
                self.write_gp_reg(instruction.rd, sign_extend_word(low_word(a.wrapping_add(b))));
                Outcome::Executed
            },
            Mnemonic::Subw => {
                let (a, b) = self.values_from_registers(instruction);
                self.write_gp_reg(instruction.rd, sign_extend_word(low_word(a.wrapping_sub(b))));
                Outcome::Executed
            },
            Mnemonic::Sllw => {
                let (a, b) = self.values_from_registers(instruction);
                let sh = (b & 0x1F) as u32;
                self.write_gp_reg(instruction.rd, sign_extend_word(low_word(a) << sh));
                Outcome::Executed
            },
            Mnemonic::Srlw => {
                let (a, b) = self.values_from_registers(instruction);
                let sh = (b & 0x1F) as u32;
                self.write_gp_reg(instruction.rd, sign_extend_word(low_word(a) >> sh));
                Outcome::Executed
            },
            Mnemonic::Sraw => {
                let (a, b) = self.values_from_registers(instruction);
                let sh = (b & 0x1F) as u32;
                self.write_gp_reg(
                    instruction.rd,
                    sign_extend_word(shift_right_arithmetic32(low_word(a), sh)),
                );
                Outcome::Executed
            },
            Mnemonic::Mulw => {
                let (a, b) = self.u32_values_from_registers(instruction);
                self.write_gp_reg(instruction.rd, sign_extend_word(a.wrapping_mul(b)));
                Outcome::Executed
            },
            Mnemonic::Divw => {
                let (a, b) = self.u32_values_from_registers(instruction);
                self.write_gp_reg(instruction.rd, sign_extend_word(div_signed32(a, b)));
                Outcome::Executed
            },
            Mnemonic::Divuw => {
                let (a, b) = self.u32_values_from_registers(instruction);
                self.write_gp_reg(instruction.rd, sign_extend_word(div_unsigned32(a, b)));
                Outcome::Executed
            },
            Mnemonic::Remw => {
                let (a, b) = self.u32_values_from_registers(instruction);
                self.write_gp_reg(instruction.rd, sign_extend_word(rem_signed32(a, b)));
                Outcome::Executed
            },
            Mnemonic::Remuw => {
                let (a, b) = self.u32_values_from_registers(instruction);
                self.write_gp_reg(instruction.rd, sign_extend_word(rem_unsigned32(a, b)));
                Outcome::Executed
            },
            _ => unreached(),
        }
    }

    /// A sign-extended byte load.
    fn exec_lb(&mut self, instruction: &Instruction, m: Mnemonic) -> (r: Outcome)
        requires
            old(self)@.pc >= 4,
            instruction@.rd < 32,
            instruction@.rs1 < 32,
            instruction@.rs2 < 32,
            m == spec_decode(instruction@),
            m matches Mnemonic::Lb,
        ensures
            ({
                let (s2, out) = step(old(self)@, instruction@);
                final(self)@ == s2 && r == out
            }),
    {
        let len = self.memory.len();
        proof {
            assert(len == self@.memory.len());
        }
        let ea = self.address_from_it(instruction);
        if self.ea_in_bounds(ea, 1) {
            let b = self.read_u8(ea as usize);
            self.write_gp_reg(instruction.rd, sign_extend_byte(b));
            Outcome::Executed
        } else {
            Outcome::OutOfBounds
        }
    }

    /// A sign-extended 16-bit load.
    fn exec_lh(&mut self, instruction: &Instruction, m: Mnemonic) -> (r: Outcome)
        requires
            old(self)@.pc >= 4,
            instruction@.rd < 32,
            instruction@.rs1 < 32,
            instruction@.rs2 < 32,
            m == spec_decode(instruction@),
            m matches Mnemonic::Lh,
        ensures
            ({
                let (s2, out) = step(old(self)@, instruction@);
                final(self)@ == s2 && r == out
            }),
    {
        let len = self.memory.len();
        proof {
            assert(len == self@.memory.len());
        }
        let ea = self.address_from_it(instruction);
        if self.ea_in_bounds(ea, 2) {
            let h = self.read_u16(ea as usize);
            self.write_gp_reg(instruction.rd, sign_extend_half(h));
            Outcome::Executed
        } else {
            Outcome::OutOfBounds
        }
    }

    /// A sign-extended 32-bit load.
    fn exec_lw(&mut self, instruction: &Instruction, m: Mnemonic) -> (r: Outcome)
        requires
            old(self)@.pc >= 4,
            instruction@.rd < 32,
            instruction@.rs1 < 32,
            instruction@.rs2 < 32,
            m == spec_decode(instruction@),
            m matches Mnemonic::Lw,
        ensures
            ({
                let (s2, out) = step(old(self)@, instruction@);
                final(self)@ == s2 && r == out
            }),
    {
        let len = self.memory.len();
        proof {
            assert(len == self@.memory.len());
        }
        let ea = self.address_from_it(instruction);
        if self.ea_in_bounds(ea, 4) {
            let w = self.read_u32(ea as usize);
            self.write_gp_reg(instruction.rd, sign_extend_word(w));
            Outcome::Executed
        } else {
            Outcome::OutOfBounds
        }
    }

    /// A zero-extended byte load.
    fn exec_lbu(&mut self, instruction: &Instruction, m: Mnemonic) -> (r: Outcome)
        requires
            old(self)@.pc >= 4,
            instruction@.rd < 32,
            instruction@.rs1 < 32,
            instruction@.rs2 < 32,
            m == spec_decode(instruction@),
            m matches Mnemonic::Lbu,
        ensures
            ({
                let (s2, out) = step(old(self)@, instruction@);
                final(self)@ == s2 && r == out
            }),
    {
        let len = self.memory.len();
        proof {
            assert(len == self@.memory.len());
        }
        let ea = self.address_from_it(instruction);
        if self.ea_in_bounds(ea, 1) {
            let b = self.read_u8(ea as usize);
            self.write_gp_reg(instruction.rd, b as u64);
            Outcome::Executed
        } else {
            Outcome::OutOfBounds
        }
    }

    /// A zero-extended 16-bit load.
    fn exec_lhu(&mut self, instruction: &Instruction, m: Mnemonic) -> (r: Outcome)
        requires
            old(self)@.pc >= 4,
            instruction@.rd < 32,
            instruction@.rs1 < 32,
            instruction@.rs2 < 32,
            m == spec_decode(instruction@),
            m matches Mnemonic::Lhu,
        ensures
            ({
                let (s2, out) = step(old(self)@, instruction@);
                final(self)@ == s2 && r == out
            }),
    {
        let len = self.memory.len();
        proof {
            assert(len == self@.memory.len());
        }
        let ea = self.address_from_it(instruction);
        if self.ea_in_bounds(ea, 2) {
            let h = self.read_u16(ea as usize);
            self.write_gp_reg(instruction.rd, h as u64);
            Outcome::Executed
        } else {
            Outcome::OutOfBounds
        }
    }

    /// A zero-extended 32-bit load.
    fn exec_lwu(&mut self, instruction: &Instruction, m: Mnemonic) -> (r: Outcome)
        requires
            old(self)@.pc >= 4,
            instruction@.rd < 32,
            instruction@.rs1 < 32,
            instruction@.rs2 < 32,
            m == spec_decode(instruction@),
            m matches Mnemonic::Lwu,
        ensures
            ({
                let (s2, out) = step(old(self)@, instruction@);
                final(self)@ == s2 && r == out
            }),
    {
        let len = self.memory.len();
        proof {
            assert(len == self@.memory.len());
        }
        let ea = self.address_from_it(instruction);
        if self.ea_in_bounds(ea, 4) {
            let w = self.read_u32(ea as usize);
            self.write_gp_reg(instruction.rd, w as u64);
            Outcome::Executed
        } else {
            Outcome::OutOfBounds
        }
    }

    /// A full 64-bit load.
    fn exec_ld(&mut self, instruction: &Instruction, m: Mnemonic) -> (r: Outcome)
        requires
            old(self)@.pc >= 4,
            instruction@.rd < 32,
            instruction@.rs1 < 32,
            instruction@.rs2 < 32,
            m == spec_decode(instruction@),
            m matches Mnemonic::Ld,
        ensures
            ({
                let (s2, out) = step(old(self)@, instruction@);
                final(self)@ == s2 && r == out
            }),
    {
        let len = self.memory.len();
        proof {
            assert(len == self@.memory.len());
        }
        let ea = self.address_from_it(instruction);
        if self.ea_in_bounds(ea, 8) {
            let d = self.read_u64(ea as usize);
            self.write_gp_reg(instruction.rd, d);
            Outcome::Executed
        } else {
            Outcome::OutOfBounds
        }
    }

    /// A byte store.
    fn exec_sb(&mut self, instruction: &Instruction, m: Mnemonic) -> (r: Outcome)
        requires
            old(self)@.pc >= 4,
            instruction@.rd < 32,
            instruction@.rs1 < 32,
            instruction@.rs2 < 32,
            m == spec_decode(instruction@),
            m matches Mnemonic::Sb,
        ensures
            ({
                let (s2, out) = step(old(self)@, instruction@);
                final(self)@ == s2 && r == out
            }),
    {
        let len = self.memory.len();
        proof {
            assert(len == self@.memory.len());
        }
        let ea = self.address_from_st(instruction);
        let v = self.read_gp_reg(instruction.rs2);
        if self.ea_in_bounds(ea, 1) {
            self.write_u8(ea as usize, (v % 0x100) as u8);
            Outcome::Executed
        } else {
            Outcome::OutOfBounds
        }
    }

    /// A 16-bit store.
    fn exec_sh(&mut self, instruction: &Instruction, m: Mnemonic) -> (r: Outcome)
        requires
            old(self)@.pc >= 4,
            instruction@.rd < 32,
            instruction@.rs1 < 32,
            instruction@.rs2 < 32,
            m == spec_decode(instruction@),
            m matches Mnemonic::Sh,
        ensures
            ({
                let (s2, out) = step(old(self)@, instruction@);
                final(self)@ == s2 && r == out
            }),
    {
        let len = self.memory.len();
        proof {
            assert(len == self@.memory.len());
        }
        let ea = self.address_from_st(instruction);
        let v = self.read_gp_reg(instruction.rs2);
        if self.ea_in_bounds(ea, 2) {
            self.write_u16(ea as usize, v);
            Outcome::Executed
        } else {
            Outcome::OutOfBounds
        }
    }

    /// A 32-bit store.
    fn exec_sw(&mut self, instruction: &Instruction, m: Mnemonic) -> (r: Outcome)
        requires
            old(self)@.pc >= 4,
            instruction@.rd < 32,
            instruction@.rs1 < 32,
            instruction@.rs2 < 32,
            m == spec_decode(instruction@),
            m matches Mnemonic::Sw,
        ensures
            ({
                let (s2, out) = step(old(self)@, instruction@);
                final(self)@ == s2 && r == out
            }),
    {
        let len = self.memory.len();
        proof {
            assert(len == self@.memory.len());
        }
        let ea = self.address_from_st(instruction);
        let v = self.read_gp_reg(instruction.rs2);
        if self.ea_in_bounds(ea, 4) {
            self.write_u32(ea as usize, v);
            Outcome::Executed
        } else {
            Outcome::OutOfBounds
        }
    }

    /// A 64-bit store.
    fn exec_sd(&mut self, instruction: &Instruction, m: Mnemonic) -> (r: Outcome)
        requires
            old(self)@.pc >= 4,
            instruction@.rd < 32,
            instruction@.rs1 < 32,
            instruction@.rs2 < 32,
            m == spec_decode(instruction@),
            m matches Mnemonic::Sd,
        ensures
            ({
                let (s2, out) = step(old(self)@, instruction@);
                final(self)@ == s2 && r == out
            }),
    {
        let len = self.memory.len();
        proof {
            assert(len == self@.memory.len());
        }
        let ea = self.address_from_st(instruction);
        let v = self.read_gp_reg(instruction.rs2);
        if self.ea_in_bounds(ea, 8) {
            self.write_u64(ea as usize, v);
            Outcome::Executed
        } else {
            Outcome::OutOfBounds
        }
    }

    /// Performs exactly one state transition for a decoded instruction, as
    /// the `step` specification describes: dispatch on the encoding table,
    /// then the matched rule's semantics. An encoding that matches no rule
    /// reports `Unimplemented` and an out-of-range memory access reports
    /// `OutOfBounds`; both leave the state unchanged.
    ///
    /// The program counter has already been advanced past this instruction
    /// by the driving loop, hence the precondition that it is at least one
    /// instruction width.
    #[verifier::rlimit(100)]
    pub fn execute(&mut self, instruction: &Instruction) -> (r: Outcome)
        requires
            old(self)@.pc >= 4,
            instruction@.rd < 32,
            instruction@.rs1 < 32,
            instruction@.rs2 < 32,
        ensures
            ({
                let (s2, out) = step(old(self)@, instruction@);
                final(self)@ == s2 && r == out
            }),
    {
        let m = decode(instruction);
        match m {
            Mnemonic::Lui | Mnemonic::Auipc | Mnemonic::Jal | Mnemonic::Jalr => self.exec_upper_and_jumps(instruction, m),
            Mnemonic::Beq | Mnemonic::Bne | Mnemonic::Blt | Mnemonic::Bge | Mnemonic::Bltu | Mnemonic::Bgeu => self.exec_branches(instruction, m),
            Mnemonic::Lb => self.exec_lb(instruction, m),
            Mnemonic::Lh => self.exec_lh(instruction, m),
            Mnemonic::Lw => self.exec_lw(instruction, m),
            Mnemonic::Lbu => self.exec_lbu(instruction, m),
            Mnemonic::Lhu => self.exec_lhu(instruction, m),
            Mnemonic::Lwu => self.exec_lwu(instruction, m),
            Mnemonic::Ld => self.exec_ld(instruction, m),
            Mnemonic::Sb => self.exec_sb(instruction, m),
            Mnemonic::Sh => self.exec_sh(instruction, m),
            Mnemonic::Sw => self.exec_sw(instruction, m),
            Mnemonic::Sd => self.exec_sd(instruction, m),
            Mnemonic::Addi | Mnemonic::Slti | Mnemonic::Sltiu | Mnemonic::Xori | Mnemonic::Ori | Mnemonic::Andi | Mnemonic::Slli | Mnemonic::Srli | Mnemonic::Srai => self.exec_alu_immediate(instruction, m),
            Mnemonic::Add | Mnemonic::Sub | Mnemonic::Sll | Mnemonic::Slt | Mnemonic::Sltu | Mnemonic::Xor | Mnemonic::Srl | Mnemonic::Sra | Mnemonic::Or | Mnemonic::And | Mnemonic::Mul | Mnemonic::Mulh | Mnemonic::Mulhsu | Mnemonic::Mulhu | Mnemonic::Div | Mnemonic::Divu | Mnemonic::Rem | Mnemonic::Remu => self.exec_alu_register(instruction, m),
            Mnemonic::Addiw | Mnemonic::Slliw | Mnemonic::Srliw | Mnemonic::Sraiw | Mnemonic::Addw | Mnemonic::Subw | Mnemonic::Sllw | Mnemonic::Srlw | Mnemonic::Sraw | Mnemonic::Mulw | Mnemonic::Divw | Mnemonic::Divuw | Mnemonic::Remw | Mnemonic::Remuw => self.exec_alu_word(instruction, m),
            Mnemonic::Unimplemented => Outcome::Unimplemented,
            _ => Outcome::Executed,
        }
    }
}

} // verus!
