use vstd::prelude::*;

verus! {

// Major opcodes (bits 6:0 of the instruction word).
pub const LUI: u32 = 0x37;
pub const AUIPC: u32 = 0x17;
pub const JAL: u32 = 0x6f;
pub const JALR: u32 = 0x67;
pub const B_TYPE: u32 = 0x63;
pub const LOAD: u32 = 0x03;
pub const S_TYPE: u32 = 0x23;
pub const I_TYPE: u32 = 0x13;
pub const R_TYPE: u32 = 0x33;
pub const FENCE: u32 = 0x0f;
pub const CSR: u32 = 0x73;

// funct3 values under the B_TYPE opcode.
pub const BEQ: u32 = 0x0;
pub const BNE: u32 = 0x1;
pub const BLT: u32 = 0x4;
pub const BGE: u32 = 0x5;
pub const BLTU: u32 = 0x6;
pub const BGEU: u32 = 0x7;

// funct3 values under the LOAD opcode.
pub const LB: u32 = 0x0;
pub const LH: u32 = 0x1;
pub const LW: u32 = 0x2;
pub const LBU: u32 = 0x4;
pub const LHU: u32 = 0x5;
pub const LWU: u32 = 0x6;

// funct3 values under the S_TYPE opcode.
pub const SB: u32 = 0x0;
pub const SH: u32 = 0x1;
pub const SW: u32 = 0x2;

// funct3 values under the I_TYPE opcode; SRI is disambiguated by funct7.
pub const ADDI: u32 = 0x0;
pub const SLLI: u32 = 0x1;
pub const SLTI: u32 = 0x2;
pub const SLTIU: u32 = 0x3;
pub const XORI: u32 = 0x4;
pub const SRI: u32 = 0x5;
pub const ORI: u32 = 0x6;
pub const ANDI: u32 = 0x7;
pub const SRLI: u32 = 0x00;
pub const SRAI: u32 = 0x20;

// funct3 values under the R_TYPE opcode; ADDSUB and SR are disambiguated by
// funct7.
pub const ADDSUB: u32 = 0x0;
pub const SLL: u32 = 0x1;
pub const SLT: u32 = 0x2;
pub const SLTU: u32 = 0x3;
pub const XOR: u32 = 0x4;
pub const SR: u32 = 0x5;
pub const OR: u32 = 0x6;
pub const AND: u32 = 0x7;
pub const ADD: u32 = 0x00;
pub const SUB: u32 = 0x20;
pub const SRL: u32 = 0x00;
pub const SRA: u32 = 0x20;

// funct3 values under the CSR opcode; funct3 0 carries ECALL/EBREAK, told
// apart by the I-immediate.
pub const PRIV: u32 = 0x0;
pub const CSRRW: u32 = 0x1;
pub const CSRRS: u32 = 0x2;
pub const CSRRC: u32 = 0x3;
pub const CSRRWI: u32 = 0x5;
pub const CSRRSI: u32 = 0x6;
pub const CSRRCI: u32 = 0x7;

// Mathematical readings of the fixed instruction fields.

pub open spec fn opcode_of(instr: u32) -> u32 {
    instr & 0x7f
}

pub open spec fn rd_of(instr: u32) -> u32 {
    (instr >> 7) & 0x1f
}

pub open spec fn rs1_of(instr: u32) -> u32 {
    (instr >> 15) & 0x1f
}

pub open spec fn rs2_of(instr: u32) -> u32 {
    (instr >> 20) & 0x1f
}

pub open spec fn funct3_of(instr: u32) -> u32 {
    (instr >> 12) & 0x7
}

pub open spec fn funct7_of(instr: u32) -> u32 {
    (instr >> 25) & 0x7f
}

/// Shift amount of the shift-immediate instructions: the low five bits of the
/// I-immediate field, so a raw immediate beyond 31 is masked, never used as a
/// full shift count.
pub open spec fn shamt_of(instr: u32) -> u32 {
    (instr >> 20) & 0x1f
}

// The five immediate encodings, each sign-extended to 32 bits (the U-type
// immediate carries its own high bits and needs no extension).

/// I-type: bits 31:20, sign-extended from bit 11.
pub open spec fn imm_i_of(instr: u32) -> u32 {
    let v = instr >> 20;
    if v < 0x800 {
        v
    } else {
        (v + 0xffff_f000) as u32
    }
}

/// S-type: bits 31:25 and 11:7, sign-extended from bit 11.
pub open spec fn imm_s_of(instr: u32) -> u32 {
    let v = ((instr >> 25) << 5) | ((instr >> 7) & 0x1f);
    if v < 0x800 {
        v
    } else {
        (v + 0xffff_f000) as u32
    }
}

/// B-type: bits 31, 7, 30:25 and 11:8 form bits 12:1 of the offset, bit 0 is
/// zero; sign-extended from bit 12.
pub open spec fn imm_b_of(instr: u32) -> u32 {
    let v = ((instr >> 31) << 12) | (((instr >> 7) & 0x1) << 11) | (((instr >> 25) & 0x3f) << 5)
        | (((instr >> 8) & 0xf) << 1);
    if v < 0x1000 {
        v
    } else {
        (v + 0xffff_e000) as u32
    }
}

/// U-type: bits 31:12 in place, low twelve bits zero.
pub open spec fn imm_u_of(instr: u32) -> u32 {
    instr & 0xffff_f000
}

/// J-type: bits 31, 19:12, 20 and 30:21 form bits 20:1 of the offset, bit 0 is
/// zero; sign-extended from bit 20.
pub open spec fn imm_j_of(instr: u32) -> u32 {
    let v = ((instr >> 31) << 20) | (((instr >> 12) & 0xff) << 12) | (((instr >> 20) & 0x1) << 11)
        | (((instr >> 21) & 0x3ff) << 1);
    if v < 0x10_0000 {
        v
    } else {
        (v + 0xffe0_0000) as u32
    }
}

// Executable accessors, each total: a malformed instruction still decodes to
// some bit pattern; validity is the dispatcher's concern.

pub fn rd(instr: u32) -> (r: u32)
    ensures
        r == rd_of(instr),
        r < 32,
{
    proof {
        assert((instr >> 7) & 0x1f < 32) by (bit_vector);
    }
    (instr >> 7) & 0x1f
}

pub fn rs1(instr: u32) -> (r: u32)
    ensures
        r == rs1_of(instr),
        r < 32,
{
    proof {
        assert((instr >> 15) & 0x1f < 32) by (bit_vector);
    }
    (instr >> 15) & 0x1f
}

pub fn rs2(instr: u32) -> (r: u32)
    ensures
        r == rs2_of(instr),
        r < 32,
{
    proof {
        assert((instr >> 20) & 0x1f < 32) by (bit_vector);
    }
    (instr >> 20) & 0x1f
}

pub fn shamt(instr: u32) -> (r: u32)
    ensures
        r == shamt_of(instr),
        r < 32,
{
    proof {
        assert((instr >> 20) & 0x1f < 32) by (bit_vector);
    }
    (instr >> 20) & 0x1f
}

pub fn imm_i(instr: u32) -> (r: u32)
    ensures
        r == imm_i_of(instr),
{
    let v: u32 = instr >> 20;
    proof {
        assert(instr >> 20 < 0x1000) by (bit_vector);
    }
    if v < 0x800 {
        v
    } else {
        v + 0xffff_f000
    }
}

pub fn imm_s(instr: u32) -> (r: u32)
    ensures
        r == imm_s_of(instr),
{
    let v: u32 = ((instr >> 25) << 5) | ((instr >> 7) & 0x1f);
    proof {
        assert(((instr >> 25) << 5) | ((instr >> 7) & 0x1f) < 0x1000) by (bit_vector);
    }
    if v < 0x800 {
        v
    } else {
        v + 0xffff_f000
    }
}

pub fn imm_b(instr: u32) -> (r: u32)
    ensures
        r == imm_b_of(instr),
{
    let v: u32 = ((instr >> 31) << 12) | (((instr >> 7) & 0x1) << 11) | (((instr >> 25) & 0x3f)
        << 5) | (((instr >> 8) & 0xf) << 1);
    proof {
        assert(((instr >> 31) << 12) | (((instr >> 7) & 0x1) << 11) | (((instr >> 25) & 0x3f) << 5)
            | (((instr >> 8) & 0xf) << 1) < 0x2000) by (bit_vector);
    }
    if v < 0x1000 {
        v
    } else {
        v + 0xffff_e000
    }
}

pub fn imm_u(instr: u32) -> (r: u32)
    ensures
        r == imm_u_of(instr),
{
    instr & 0xffff_f000
}

pub fn imm_j(instr: u32) -> (r: u32)
    ensures
        r == imm_j_of(instr),
{
    let v: u32 = ((instr >> 31) << 20) | (((instr >> 12) & 0xff) << 12) | (((instr >> 20) & 0x1)
        << 11) | (((instr >> 21) & 0x3ff) << 1);
    proof {
        assert(((instr >> 31) << 20) | (((instr >> 12) & 0xff) << 12) | (((instr >> 20) & 0x1)
            << 11) | (((instr >> 21) & 0x3ff) << 1) < 0x20_0000) by (bit_vector);
    }
    if v < 0x10_0000 {
        v
    } else {
        v + 0xffe0_0000
    }
}

} // verus!
