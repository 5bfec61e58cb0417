use crate::exception::Exception;
use crate::memory::{
    byte_at, in_mem_range, load_half, load_word, store_byte, store_half, store_word, BUS, MEM_BASE,
    MEM_SIZE,
};
use crate::opcode::{
    funct3_of, funct7_of, imm_b, imm_b_of, imm_i, imm_i_of, imm_j, imm_j_of, imm_s, imm_s_of,
    imm_u, imm_u_of, opcode_of, rd, rd_of, rs1, rs1_of, rs2, rs2_of, shamt, shamt_of, ADD, ADDI,
    ADDSUB, AND, ANDI, AUIPC, BEQ, BGE, BGEU, BLT, BLTU, BNE, B_TYPE, CSR, CSRRC, CSRRCI, CSRRS,
    CSRRSI, CSRRW, CSRRWI, FENCE, I_TYPE, JAL, JALR, LB, LBU, LH, LHU, LOAD, LUI, LW, LWU, OR, ORI,
    PRIV, R_TYPE, SB, SH, SLL, SLLI, SLT, SLTI, SLTIU, SLTU, SR, SRA, SRAI, SRI, SRL, SRLI, SUB,
    SW, S_TYPE, XOR, XORI,
};
use crate::registers::{reg_upd, XREGS};
use vstd::prelude::*;

verus! {

// 32-bit machine arithmetic, stated mathematically.

/// Addition with 32-bit wraparound; overflow is silently discarded.
pub open spec fn wadd(a: u32, b: u32) -> u32 {
    if a + b > 0xffff_ffff {
        (a + b - 0x1_0000_0000) as u32
    } else {
        (a + b) as u32
    }
}

/// Subtraction with 32-bit wraparound.
pub open spec fn wsub(a: u32, b: u32) -> u32 {
    if a - b < 0 {
        (a - b + 0x1_0000_0000) as u32
    } else {
        (a - b) as u32
    }
}

/// The two's-complement reading of a 32-bit word.
pub open spec fn signed(a: u32) -> int {
    if a < 0x8000_0000 {
        a as int
    } else {
        a - 0x1_0000_0000
    }
}

/// Arithmetic right shift: the sign bit is replicated into the vacated
/// positions.
pub open spec fn sra32(a: u32, sh: u32) -> u32
    recommends
        sh < 32,
{
    if a < 0x8000_0000 {
        a >> sh
    } else {
        (a >> sh) | (!(0xffff_ffffu32 >> sh))
    }
}

/// Sign extension of a byte value to 32 bits.
pub open spec fn sext8(v: u32) -> u32
    recommends
        v < 0x100,
{
    if v < 0x80 {
        v
    } else {
        (v + 0xffff_ff00) as u32
    }
}

/// Sign extension of a halfword value to 32 bits.
pub open spec fn sext16(v: u32) -> u32
    recommends
        v < 0x1_0000,
{
    if v < 0x8000 {
        v
    } else {
        (v + 0xffff_0000) as u32
    }
}

/// 0 or 1, the result a comparison instruction writes to its destination.
pub open spec fn b2u(b: bool) -> u32 {
    if b {
        1
    } else {
        0
    }
}

/// What a taken branch or jump leaves in the program counter: the target
/// minus the instruction width.  The driving loop advances the program
/// counter by the instruction width after every execute step, taken or not,
/// so the net program counter after the loop's advance is the true target.
pub open spec fn branch_pc(pc: u32, off: u32) -> u32 {
    wsub(wadd(pc, off), 4)
}

/// After the driving loop's uniform advance by the instruction width, the
/// program counter a taken branch or jump left behind nets out to the true
/// target `pc + off`; a branch that falls through leaves the program counter
/// alone and the same advance yields `pc + 4`.
pub proof fn lemma_branch_nets_target(pc: u32, off: u32)
    ensures
        wadd(branch_pc(pc, off), 4) == wadd(pc, off),
{
}

// The machine state, mathematically: the register sequence, the program
// counter and the memory bytes.

#[verifier::ext_equal]
pub ghost struct CpuView {
    pub regs: Seq<u32>,
    pub pc: u32,
    pub mem: Seq<u8>,
}

/// The value of the first source register.
pub open spec fn rs1_val(pre: CpuView, instr: u32) -> u32 {
    pre.regs[rs1_of(instr) as int]
}

/// The value of the second source register.
pub open spec fn rs2_val(pre: CpuView, instr: u32) -> u32 {
    pre.regs[rs2_of(instr) as int]
}

/// The state after `val` is written to the destination register; program
/// counter and memory are untouched.
pub open spec fn with_rd(pre: CpuView, instr: u32, val: u32) -> CpuView {
    CpuView { regs: reg_upd(pre.regs, rd_of(instr) as int, val), ..pre }
}

/// The state after the memory is replaced; registers and program counter are
/// untouched.
pub open spec fn with_mem(pre: CpuView, mem: Seq<u8>) -> CpuView {
    CpuView { mem, ..pre }
}

/// The state a conditional branch leaves behind: redirected when taken,
/// untouched when it falls through.
pub open spec fn branch(pre: CpuView, instr: u32, taken: bool) -> CpuView {
    if taken {
        CpuView { pc: branch_pc(pre.pc, imm_b_of(instr)), ..pre }
    } else {
        pre
    }
}

/// What every register-writing instruction guarantees through `with_rd`: a
/// destination other than register 0 reads back exactly the written value,
/// and register 0 is never disturbed, whatever was aimed at it.
pub proof fn lemma_rd_write_read(pre: CpuView, instr: u32, val: u32)
    requires
        pre.regs.len() == 32,
    ensures
        rd_of(instr) != 0 ==> with_rd(pre, instr, val).regs[rd_of(instr) as int] == val,
        with_rd(pre, instr, val).regs[0] == pre.regs[0],
        with_rd(pre, instr, val).pc == pre.pc,
        with_rd(pre, instr, val).mem == pre.mem,
{
    assert(rd_of(instr) < 32) by {
        assert((instr >> 7) & 0x1f < 32) by (bit_vector);
    }
}

/// What every conditional branch guarantees through `branch`, read together
/// with the driving loop's uniform advance by the instruction width: not
/// taken falls through to the next instruction, taken nets out to the
/// program counter plus the B-offset.
pub proof fn lemma_branch_contract(pre: CpuView, instr: u32, taken: bool)
    ensures
        !taken ==> branch(pre, instr, taken).pc == pre.pc,
        taken ==> wadd(branch(pre, instr, taken).pc, 4) == wadd(pre.pc, imm_b_of(instr)),
        branch(pre, instr, taken).regs == pre.regs,
        branch(pre, instr, taken).mem == pre.mem,
{
}

/// The instruction kinds of the defined dispatch table.
pub enum Op {
    Lui,
    Auipc,
    Jal,
    Jalr,
    Beq,
    Bne,
    Blt,
    Bge,
    Bltu,
    Bgeu,
    Lb,
    Lh,
    Lw,
    Lbu,
    Lhu,
    Lwu,
    Sb,
    Sh,
    Sw,
    Addi,
    Slti,
    Sltiu,
    Xori,
    Ori,
    Andi,
    Slli,
    Srli,
    Srai,
    Add,
    Sub,
    Sll,
    Slt,
    Sltu,
    Xor,
    Srl,
    Sra,
    Or,
    And,
    Fence,
    Ecall,
    Ebreak,
    Csrrw,
    Csrrs,
    Csrrc,
    Csrrwi,
    Csrrsi,
    Csrrci,
}

/// The dispatch table: opcode first, then funct3 where the opcode has
/// sub-forms, then funct7 (or, for the ECALL/EBREAK pair, the low immediate)
/// only where funct3 is ambiguous.  `None` is an undefined combination.
pub open spec fn decode_of(instr: u32) -> Option<Op> {
    let opcode = opcode_of(instr);
    let funct3 = funct3_of(instr);
    let funct7 = funct7_of(instr);
    if opcode == LUI {
        Some(Op::Lui)
    } else if opcode == AUIPC {
        Some(Op::Auipc)
    } else if opcode == JAL {
        Some(Op::Jal)
    } else if opcode == JALR {
        Some(Op::Jalr)
    } else if opcode == B_TYPE {
        if funct3 == BEQ {
            Some(Op::Beq)
        } else if funct3 == BNE {
            Some(Op::Bne)
        } else if funct3 == BLT {
            Some(Op::Blt)
        } else if funct3 == BGE {
            Some(Op::Bge)
        } else if funct3 == BLTU {
            Some(Op::Bltu)
        } else if funct3 == BGEU {
            Some(Op::Bgeu)
        } else {
            None
        }
    } else if opcode == LOAD {
        if funct3 == LB {
            Some(Op::Lb)
        } else if funct3 == LH {
            Some(Op::Lh)
        } else if funct3 == LW {
            Some(Op::Lw)
        } else if funct3 == LBU {
            Some(Op::Lbu)
        } else if funct3 == LHU {
            Some(Op::Lhu)
        } else if funct3 == LWU {
            Some(Op::Lwu)
        } else {
            None
        }
    } else if opcode == S_TYPE {
        if funct3 == SB {
            Some(Op::Sb)
        } else if funct3 == SH {
            Some(Op::Sh)
        } else if funct3 == SW {
            Some(Op::Sw)
        } else {
            None
        }
    } else if opcode == I_TYPE {
        if funct3 == ADDI {
            Some(Op::Addi)
        } else if funct3 == SLLI {
            Some(Op::Slli)
        } else if funct3 == SLTI {
            Some(Op::Slti)
        } else if funct3 == SLTIU {
            Some(Op::Sltiu)
        } else if funct3 == XORI {
            Some(Op::Xori)
        } else if funct3 == SRI {
            if funct7 == SRLI {
                Some(Op::Srli)
            } else if funct7 == SRAI {
                Some(Op::Srai)
            } else {
                None
            }
        } else if funct3 == ORI {
            Some(Op::Ori)
        } else {
            Some(Op::Andi)
        }
    } else if opcode == R_TYPE {
        if funct3 == ADDSUB {
            if funct7 == ADD {
                Some(Op::Add)
            } else if funct7 == SUB {
                Some(Op::Sub)
            } else {
                None
            }
        } else if funct3 == SLL {
            Some(Op::Sll)
        } else if funct3 == SLT {
            Some(Op::Slt)
        } else if funct3 == SLTU {
            Some(Op::Sltu)
        } else if funct3 == XOR {
            Some(Op::Xor)
        } else if funct3 == SR {
            if funct7 == SRL {
                Some(Op::Srl)
            } else if funct7 == SRA {
                Some(Op::Sra)
            } else {
                None
            }
        } else if funct3 == OR {
            Some(Op::Or)
        } else {
            Some(Op::And)
        }
    } else if opcode == FENCE {
        Some(Op::Fence)
    } else if opcode == CSR {
        if funct3 == PRIV {
            if imm_i_of(instr) == 0 {
                Some(Op::Ecall)
            } else if imm_i_of(instr) == 1 {
                Some(Op::Ebreak)
            } else {
                None
            }
        } else if funct3 == CSRRW {
            Some(Op::Csrrw)
        } else if funct3 == CSRRS {
            Some(Op::Csrrs)
        } else if funct3 == CSRRC {
            Some(Op::Csrrc)
        } else if funct3 == CSRRWI {
            Some(Op::Csrrwi)
        } else if funct3 == CSRRSI {
            Some(Op::Csrrsi)
        } else if funct3 == CSRRCI {
            Some(Op::Csrrci)
        } else {
            None
        }
    } else {
        None
    }
}

/// The architectural effect of one defined instruction on the machine state.
pub open spec fn step_op(pre: CpuView, op: Op, instr: u32) -> Result<CpuView, Exception> {
    match op {
        Op::Lui => Ok(with_rd(pre, instr, imm_u_of(instr))),
        Op::Auipc => Ok(with_rd(pre, instr, wadd(pre.pc, imm_u_of(instr)))),
        Op::Jal => Ok(
            CpuView {
                regs: reg_upd(pre.regs, rd_of(instr) as int, wadd(pre.pc, 4)),
                pc: branch_pc(pre.pc, imm_j_of(instr)),
                mem: pre.mem,
            },
        ),
        Op::Jalr => Ok(
            CpuView {
                regs: reg_upd(pre.regs, rd_of(instr) as int, wadd(pre.pc, 4)),
                pc: wsub(wadd(rs1_val(pre, instr), imm_i_of(instr)) & 0xffff_fffe, 4),
                mem: pre.mem,
            },
        ),
        Op::Beq => Ok(branch(pre, instr, rs1_val(pre, instr) == rs2_val(pre, instr))),
        Op::Bne => Ok(branch(pre, instr, rs1_val(pre, instr) != rs2_val(pre, instr))),
        Op::Blt => Ok(
            branch(pre, instr, signed(rs1_val(pre, instr)) < signed(rs2_val(pre, instr))),
        ),
        Op::Bge => Ok(
            branch(pre, instr, signed(rs1_val(pre, instr)) >= signed(rs2_val(pre, instr))),
        ),
        Op::Bltu => Ok(branch(pre, instr, rs1_val(pre, instr) < rs2_val(pre, instr))),
        Op::Bgeu => Ok(branch(pre, instr, rs1_val(pre, instr) >= rs2_val(pre, instr))),
        Op::Lb => {
            let ea = wadd(rs1_val(pre, instr), imm_i_of(instr));
            if in_mem_range(ea, 1) {
                Ok(with_rd(pre, instr, sext8(byte_at(pre.mem, ea))))
            } else {
                Err(Exception::MemoryFault)
            }
        },
        Op::Lh => {
            let ea = wadd(rs1_val(pre, instr), imm_i_of(instr));
            if in_mem_range(ea, 2) {
                Ok(with_rd(pre, instr, sext16(load_half(pre.mem, ea))))
            } else {
                Err(Exception::MemoryFault)
            }
        },
        Op::Lw => {
            let ea = wadd(rs1_val(pre, instr), imm_i_of(instr));
            if in_mem_range(ea, 4) {
                Ok(with_rd(pre, instr, load_word(pre.mem, ea)))
            } else {
                Err(Exception::MemoryFault)
            }
        },
        Op::Lbu => {
            let ea = wadd(rs1_val(pre, instr), imm_i_of(instr));
            if in_mem_range(ea, 1) {
                Ok(with_rd(pre, instr, byte_at(pre.mem, ea)))
            } else {
                Err(Exception::MemoryFault)
            }
        },
        Op::Lhu => {
            let ea = wadd(rs1_val(pre, instr), imm_i_of(instr));
            if in_mem_range(ea, 2) {
                Ok(with_rd(pre, instr, load_half(pre.mem, ea)))
            } else {
                Err(Exception::MemoryFault)
            }
        },
        Op::Lwu => {
            let ea = wadd(rs1_val(pre, instr), imm_i_of(instr));
            if in_mem_range(ea, 4) {
                Ok(with_rd(pre, instr, load_word(pre.mem, ea)))
            } else {
                Err(Exception::MemoryFault)
            }
        },
        Op::Sb => {
            let ea = wadd(rs1_val(pre, instr), imm_s_of(instr));
            if in_mem_range(ea, 1) {
                Ok(with_mem(pre, store_byte(pre.mem, ea, rs2_val(pre, instr))))
            } else {
                Err(Exception::MemoryFault)
            }
        },
        Op::Sh => {
            let ea = wadd(rs1_val(pre, instr), imm_s_of(instr));
            if in_mem_range(ea, 2) {
                Ok(with_mem(pre, store_half(pre.mem, ea, rs2_val(pre, instr))))
            } else {
                Err(Exception::MemoryFault)
            }
        },
        Op::Sw => {
            let ea = wadd(rs1_val(pre, instr), imm_s_of(instr));
            if in_mem_range(ea, 4) {
                Ok(with_mem(pre, store_word(pre.mem, ea, rs2_val(pre, instr))))
            } else {
                Err(Exception::MemoryFault)
            }
        },
        Op::Addi => Ok(with_rd(pre, instr, wadd(rs1_val(pre, instr), imm_i_of(instr)))),
        Op::Slti => Ok(
            with_rd(pre, instr, b2u(signed(rs1_val(pre, instr)) < signed(imm_i_of(instr)))),
        ),
        Op::Sltiu => Ok(with_rd(pre, instr, b2u(rs1_val(pre, instr) < imm_i_of(instr)))),
        Op::Xori => Ok(with_rd(pre, instr, rs1_val(pre, instr) ^ imm_i_of(instr))),
        Op::Ori => Ok(with_rd(pre, instr, rs1_val(pre, instr) | imm_i_of(instr))),
        Op::Andi => Ok(with_rd(pre, instr, rs1_val(pre, instr) & imm_i_of(instr))),
        Op::Slli => Ok(with_rd(pre, instr, rs1_val(pre, instr) << shamt_of(instr))),
        Op::Srli => Ok(with_rd(pre, instr, rs1_val(pre, instr) >> shamt_of(instr))),
        Op::Srai => Ok(with_rd(pre, instr, sra32(rs1_val(pre, instr), shamt_of(instr)))),
        Op::Add => Ok(with_rd(pre, instr, wadd(rs1_val(pre, instr), rs2_val(pre, instr)))),
        Op::Sub => Ok(with_rd(pre, instr, wsub(rs1_val(pre, instr), rs2_val(pre, instr)))),
        Op::Sll => Ok(with_rd(pre, instr, rs1_val(pre, instr) << (rs2_val(pre, instr) & 0x1f))),
        Op::Slt => Ok(
            with_rd(pre, instr, b2u(signed(rs1_val(pre, instr)) < signed(rs2_val(pre, instr)))),
        ),
        Op::Sltu => Ok(with_rd(pre, instr, b2u(rs1_val(pre, instr) < rs2_val(pre, instr)))),
        Op::Xor => Ok(with_rd(pre, instr, rs1_val(pre, instr) ^ rs2_val(pre, instr))),
        Op::Srl => Ok(with_rd(pre, instr, rs1_val(pre, instr) >> (rs2_val(pre, instr) & 0x1f))),
        Op::Sra => Ok(
            with_rd(pre, instr, sra32(rs1_val(pre, instr), rs2_val(pre, instr) & 0x1f)),
        ),
        Op::Or => Ok(with_rd(pre, instr, rs1_val(pre, instr) | rs2_val(pre, instr))),
        Op::And => Ok(with_rd(pre, instr, rs1_val(pre, instr) & rs2_val(pre, instr))),
        Op::Fence | Op::Ecall | Op::Ebreak | Op::Csrrw | Op::Csrrs | Op::Csrrc | Op::Csrrwi
            | Op::Csrrsi | Op::Csrrci => Ok(pre),
    }
}

/// One fetch-free execute step: what `CPU::execute` does to the machine state
/// for any instruction word, defined or not.
pub open spec fn step(pre: CpuView, instr: u32) -> Result<CpuView, Exception> {
    match decode_of(instr) {
        None => Err(Exception::IllegalInstruction),
        Some(op) => step_op(pre, op, instr),
    }
}

/// Register 0 is hardwired to zero across whole instructions: whatever
/// defined instruction executes, and whatever register it names as its
/// destination, a machine whose register 0 reads zero steps to a machine
/// whose register 0 still reads zero.
pub proof fn lemma_x0_reads_zero(pre: CpuView, instr: u32)
    requires
        pre.regs.len() == 32,
        pre.regs[0] == 0,
    ensures
        (match step(pre, instr) {
            Ok(post) => post.regs[0] == 0,
            Err(e) => true,
        }),
{
    assert(rd_of(instr) < 32) by {
        assert((instr >> 7) & 0x1f < 32) by (bit_vector);
    }
}

/// The one-hart machine: register file, program counter and memory bus.
#[derive(Clone, Debug)]
pub struct CPU {
    pub xregs: XREGS,
    pub pc: u32,
    pub bus: BUS,
}

impl View for CPU {
    type V = CpuView;

    open spec fn view(&self) -> CpuView {
        CpuView { regs: self.xregs@, pc: self.pc, mem: self.bus@ }
    }
}

impl CPU {
    pub open spec fn wf(&self) -> bool {
        &&& self.xregs.wf()
        &&& self.bus.wf()
    }

    /// A machine at reset: memory zeroed, registers zeroed except the stack
    /// pointer (register 2), which points at the top of the memory region,
    /// and the program counter at the base of memory.
    pub fn new() -> (r: CPU)
        ensures
            r.wf(),
            r@.pc == MEM_BASE,
            r@.regs[2] == MEM_BASE + MEM_SIZE,
            forall|i: int| 0 <= i < 32 && i != 2 ==> r@.regs[i] == 0,
            forall|i: int| 0 <= i < MEM_SIZE ==> r@.mem[i] == 0,
    {
        let mut xregs = XREGS::new();
        xregs.write(2, MEM_BASE + MEM_SIZE);
        CPU { xregs, pc: MEM_BASE, bus: BUS::new() }
    }

    /// Decodes and executes one instruction word against the machine state:
    /// the executable form of the mathematical `step` function.  An
    /// `(opcode, funct3, funct7)` combination outside the defined table
    /// fails with `IllegalInstruction` and an out-of-range load or store
    /// with `MemoryFault`; either way the architectural state is left
    /// untouched, so the host can deliver a trap or diagnose.
    pub fn execute(&mut self, instr: u32) -> (r: Result<(), Exception>)
        requires
            old(self).wf(),
        ensures
            final(self).wf(),
            ({
                match step(old(self)@, instr) {
                    Ok(post) => r is Ok && final(self)@ == post,
                    Err(e) => r == Err::<(), Exception>(e) && final(self)@ == old(self)@,
                }
            }),
            (r == Err::<(), Exception>(Exception::IllegalInstruction)) <==> decode_of(
                instr,
            ) is None,
    {
        let opcode: u32 = instr & 0x7f;
        let funct3: u32 = (instr >> 12) & 0x7;
        let funct7: u32 = (instr >> 25) & 0x7f;
        if opcode == LUI {
            exec_lui(self, instr);
            Ok(())
        } else if opcode == AUIPC {
            exec_auipc(self, instr);
            Ok(())
        } else if opcode == JAL {
            exec_jal(self, instr);
            Ok(())
        } else if opcode == JALR {
            exec_jalr(self, instr);
            Ok(())
        } else if opcode == B_TYPE {
            if funct3 == BEQ {
                exec_beq(self, instr);
                Ok(())
            } else if funct3 == BNE {
                exec_bne(self, instr);
                Ok(())
            } else if funct3 == BLT {
                exec_blt(self, instr);
                Ok(())
            } else if funct3 == BGE {
                exec_bge(self, instr);
                Ok(())
            } else if funct3 == BLTU {
                exec_bltu(self, instr);
                Ok(())
            } else if funct3 == BGEU {
                exec_bgeu(self, instr);
                Ok(())
            } else {
                Err(Exception::IllegalInstruction)
            }
        } else if opcode == LOAD {
            if funct3 == LB {
                exec_lb(self, instr)
            } else if funct3 == LH {
                exec_lh(self, instr)
            } else if funct3 == LW {
                exec_lw(self, instr)
            } else if funct3 == LBU {
                exec_lbu(self, instr)
            } else if funct3 == LHU {
                exec_lhu(self, instr)
            } else if funct3 == LWU {
                exec_lwu(self, instr)
            } else {
                Err(Exception::IllegalInstruction)
            }
        } else if opcode == S_TYPE {
            if funct3 == SB {
                exec_sb(self, instr)
            } else if funct3 == SH {
                exec_sh(self, instr)
            } else if funct3 == SW {
                exec_sw(self, instr)
            } else {
                Err(Exception::IllegalInstruction)
            }
        } else if opcode == I_TYPE {
            if funct3 == ADDI {
                exec_addi(self, instr);
                Ok(())
            } else if funct3 == SLLI {
                exec_slli(self, instr);
                Ok(())
            } else if funct3 == SLTI {
                exec_slti(self, instr);
                Ok(())
            } else if funct3 == SLTIU {
                exec_sltiu(self, instr);
                Ok(())
            } else if funct3 == XORI {
                exec_xori(self, instr);
                Ok(())
            } else if funct3 == SRI {
                if funct7 == SRLI {
                    exec_srli(self, instr);
                    Ok(())
                } else if funct7 == SRAI {
                    exec_srai(self, instr);
                    Ok(())
                } else {
                    Err(Exception::IllegalInstruction)
                }
            } else if funct3 == ORI {
                exec_ori(self, instr);
                Ok(())
            } else {
                exec_andi(self, instr);
                Ok(())
            }
        } else if opcode == R_TYPE {
            if funct3 == ADDSUB {
                if funct7 == ADD {
                    exec_add(self, instr);
                    Ok(())
                } else if funct7 == SUB {
                    exec_sub(self, instr);
                    Ok(())
                } else {
                    Err(Exception::IllegalInstruction)
                }
            } else if funct3 == SLL {
                exec_sll(self, instr);
                Ok(())
            } else if funct3 == SLT {
                exec_slt(self, instr);
                Ok(())
            } else if funct3 == SLTU {
                exec_sltu(self, instr);
                Ok(())
            } else if funct3 == XOR {
                exec_xor(self, instr);
                Ok(())
            } else if funct3 == SR {
                if funct7 == SRL {
                    exec_srl(self, instr);
                    Ok(())
                } else if funct7 == SRA {
                    exec_sra(self, instr);
                    Ok(())
                } else {
                    Err(Exception::IllegalInstruction)
                }
            } else if funct3 == OR {
                exec_or(self, instr);
                Ok(())
            } else {
                exec_and(self, instr);
                Ok(())
            }
        } else if opcode == FENCE {
            exec_fence(self, instr);
            Ok(())
        } else if opcode == CSR {
            if funct3 == PRIV {
                let imm: u32 = imm_i(instr);
                if imm == 0 {
                    exec_ecall(self, instr);
                    Ok(())
                } else if imm == 1 {
                    exec_ebreak(self, instr);
                    Ok(())
                } else {
                    Err(Exception::IllegalInstruction)
                }
            } else if funct3 == CSRRW {
                exec_csrrw(self, instr);
                Ok(())
            } else if funct3 == CSRRS {
                exec_csrrs(self, instr);
                Ok(())
            } else if funct3 == CSRRC {
                exec_csrrc(self, instr);
                Ok(())
            } else if funct3 == CSRRWI {
                exec_csrrwi(self, instr);
                Ok(())
            } else if funct3 == CSRRSI {
                exec_csrrsi(self, instr);
                Ok(())
            } else if funct3 == CSRRCI {
                exec_csrrci(self, instr);
                Ok(())
            } else {
                Err(Exception::IllegalInstruction)
            }
        } else {
            Err(Exception::IllegalInstruction)
        }
    }

    /// The instruction word at the program counter, or a fault when the
    /// program counter has left the memory region.
    pub fn fetch(&self) -> (r: Result<u32, Exception>)
        requires
            self.wf(),
        ensures
            match r {
                Ok(v) => in_mem_range(self.pc, 4) && v == load_word(self@.mem, self.pc),
                Err(e) => e == Exception::MemoryFault && !in_mem_range(self.pc, 4),
            },
    {
        self.bus.load(self.pc, 32)
    }
}

// Executable helpers shared by the instruction routines.

/// The low five bits of a register value, the shift count of the register
/// shift instructions.
fn mask5(v: u32) -> (r: u32)
    ensures
        r == v & 0x1f,
        r < 32,
{
    proof {
        assert(v & 0x1f < 32) by (bit_vector);
    }
    v & 0x1f
}

/// Two's-complement comparison of two 32-bit words.
fn signed_lt(a: u32, b: u32) -> (r: bool)
    ensures
        r == (signed(a) < signed(b)),
{
    if (a >= 0x8000_0000) == (b >= 0x8000_0000) {
        a < b
    } else {
        a >= 0x8000_0000
    }
}

// U-type.

/// LUI: the upper immediate, low twelve bits zero, goes to rd.
pub fn exec_lui(cpu: &mut CPU, instr: u32)
    requires
        old(cpu).wf(),
    ensures
        final(cpu).wf(),
        final(cpu)@ == with_rd(old(cpu)@, instr, imm_u_of(instr)),
{
    let imm: u32 = imm_u(instr);
    cpu.xregs.write(rd(instr), imm);
}

/// AUIPC: the upper immediate plus the current program counter goes to rd.
pub fn exec_auipc(cpu: &mut CPU, instr: u32)
    requires
        old(cpu).wf(),
    ensures
        final(cpu).wf(),
        final(cpu)@ == with_rd(old(cpu)@, instr, wadd(old(cpu)@.pc, imm_u_of(instr))),
{
    let imm: u32 = imm_u(instr);
    let val: u32 = cpu.pc.wrapping_add(imm);
    cpu.xregs.write(rd(instr), val);
}

// I-type ALU.

/// ADDI: rs1 plus the sign-extended immediate, with wraparound, goes to rd.
pub fn exec_addi(cpu: &mut CPU, instr: u32)
    requires
        old(cpu).wf(),
    ensures
        final(cpu).wf(),
        final(cpu)@ == with_rd(
            old(cpu)@,
            instr,
            wadd(rs1_val(old(cpu)@, instr), imm_i_of(instr)),
        ),
{
    let a: u32 = cpu.xregs.read(rs1(instr));
    let val: u32 = a.wrapping_add(imm_i(instr));
    cpu.xregs.write(rd(instr), val);
}

/// SLTI: 1 goes to rd when rs1 is below the immediate in the signed order,
/// else 0.
pub fn exec_slti(cpu: &mut CPU, instr: u32)
    requires
        old(cpu).wf(),
    ensures
        final(cpu).wf(),
        final(cpu)@ == with_rd(
            old(cpu)@,
            instr,
            b2u(signed(rs1_val(old(cpu)@, instr)) < signed(imm_i_of(instr))),
        ),
{
    let a: u32 = cpu.xregs.read(rs1(instr));
    let val: u32 = if signed_lt(a, imm_i(instr)) {
        1
    } else {
        0
    };
    cpu.xregs.write(rd(instr), val);
}

/// SLTIU: 1 goes to rd when rs1 is below the immediate in the unsigned
/// order, else 0.
pub fn exec_sltiu(cpu: &mut CPU, instr: u32)
    requires
        old(cpu).wf(),
    ensures
        final(cpu).wf(),
        final(cpu)@ == with_rd(
            old(cpu)@,
            instr,
            b2u(rs1_val(old(cpu)@, instr) < imm_i_of(instr)),
        ),
{
    let a: u32 = cpu.xregs.read(rs1(instr));
    let val: u32 = if a < imm_i(instr) {
        1
    } else {
        0
    };
    cpu.xregs.write(rd(instr), val);
}

/// XORI: rs1 xor the sign-extended immediate goes to rd.
pub fn exec_xori(cpu: &mut CPU, instr: u32)
    requires
        old(cpu).wf(),
    ensures
        final(cpu).wf(),
        final(cpu)@ == with_rd(old(cpu)@, instr, rs1_val(old(cpu)@, instr) ^ imm_i_of(instr)),
{
    let a: u32 = cpu.xregs.read(rs1(instr));
    let val: u32 = a ^ imm_i(instr);
    cpu.xregs.write(rd(instr), val);
}

/// ORI: rs1 or the sign-extended immediate goes to rd.
pub fn exec_ori(cpu: &mut CPU, instr: u32)
    requires
        old(cpu).wf(),
    ensures
        final(cpu).wf(),
        final(cpu)@ == with_rd(old(cpu)@, instr, rs1_val(old(cpu)@, instr) | imm_i_of(instr)),
{
    let a: u32 = cpu.xregs.read(rs1(instr));
    let val: u32 = a | imm_i(instr);
    cpu.xregs.write(rd(instr), val);
}

/// ANDI: rs1 and the sign-extended immediate goes to rd.
pub fn exec_andi(cpu: &mut CPU, instr: u32)
    requires
        old(cpu).wf(),
    ensures
        final(cpu).wf(),
        final(cpu)@ == with_rd(old(cpu)@, instr, rs1_val(old(cpu)@, instr) & imm_i_of(instr)),
{
    let a: u32 = cpu.xregs.read(rs1(instr));
    let val: u32 = a & imm_i(instr);
    cpu.xregs.write(rd(instr), val);
}

/// SLLI: rs1 shifted left by the masked five-bit shift amount goes to rd; a
/// raw immediate beyond 31 never reaches the shifter.
pub fn exec_slli(cpu: &mut CPU, instr: u32)
    requires
        old(cpu).wf(),
    ensures
        final(cpu).wf(),
        final(cpu)@ == with_rd(old(cpu)@, instr, rs1_val(old(cpu)@, instr) << shamt_of(instr)),
{
    let sh: u32 = shamt(instr);
    let a: u32 = cpu.xregs.read(rs1(instr));
    cpu.xregs.write(rd(instr), a << sh);
}

/// SRLI: rs1 shifted right logically by the masked five-bit shift amount
/// goes to rd.
pub fn exec_srli(cpu: &mut CPU, instr: u32)
    requires
        old(cpu).wf(),
    ensures
        final(cpu).wf(),
        final(cpu)@ == with_rd(old(cpu)@, instr, rs1_val(old(cpu)@, instr) >> shamt_of(instr)),
{
    let sh: u32 = shamt(instr);
    let a: u32 = cpu.xregs.read(rs1(instr));
    cpu.xregs.write(rd(instr), a >> sh);
}

/// SRAI: rs1 shifted right arithmetically by the masked five-bit shift
/// amount goes to rd.
pub fn exec_srai(cpu: &mut CPU, instr: u32)
    requires
        old(cpu).wf(),
    ensures
        final(cpu).wf(),
        final(cpu)@ == with_rd(
            old(cpu)@,
            instr,
            sra32(rs1_val(old(cpu)@, instr), shamt_of(instr)),
        ),
{
    let sh: u32 = shamt(instr);
    let a: u32 = cpu.xregs.read(rs1(instr));
    let val: u32 = if a >= 0x8000_0000 {
        (a >> sh) | !(0xffff_ffffu32 >> sh)
    } else {
        a >> sh
    };
    cpu.xregs.write(rd(instr), val);
}

// R-type ALU.

/// ADD: rs1 plus rs2, with wraparound, goes to rd.
pub fn exec_add(cpu: &mut CPU, instr: u32)
    requires
        old(cpu).wf(),
    ensures
        final(cpu).wf(),
        final(cpu)@ == with_rd(
            old(cpu)@,
            instr,
            wadd(rs1_val(old(cpu)@, instr), rs2_val(old(cpu)@, instr)),
        ),
{
    let a: u32 = cpu.xregs.read(rs1(instr));
    let b: u32 = cpu.xregs.read(rs2(instr));
    cpu.xregs.write(rd(instr), a.wrapping_add(b));
}

/// SUB: rs1 minus rs2, with wraparound, goes to rd.
pub fn exec_sub(cpu: &mut CPU, instr: u32)
    requires
        old(cpu).wf(),
    ensures
        final(cpu).wf(),
        final(cpu)@ == with_rd(
            old(cpu)@,
            instr,
            wsub(rs1_val(old(cpu)@, instr), rs2_val(old(cpu)@, instr)),
        ),
{
    let a: u32 = cpu.xregs.read(rs1(instr));
    let b: u32 = cpu.xregs.read(rs2(instr));
    cpu.xregs.write(rd(instr), a.wrapping_sub(b));
}

/// SLL: rs1 shifted left by the low five bits of rs2 goes to rd.
pub fn exec_sll(cpu: &mut CPU, instr: u32)
    requires
        old(cpu).wf(),
    ensures
        final(cpu).wf(),
        final(cpu)@ == with_rd(
            old(cpu)@,
            instr,
            rs1_val(old(cpu)@, instr) << (rs2_val(old(cpu)@, instr) & 0x1f),
        ),
{
    let a: u32 = cpu.xregs.read(rs1(instr));
    let sh: u32 = mask5(cpu.xregs.read(rs2(instr)));
    cpu.xregs.write(rd(instr), a << sh);
}

/// SLT: 1 goes to rd when rs1 is below rs2 in the signed order, else 0.
pub fn exec_slt(cpu: &mut CPU, instr: u32)
    requires
        old(cpu).wf(),
    ensures
        final(cpu).wf(),
        final(cpu)@ == with_rd(
            old(cpu)@,
            instr,
            b2u(signed(rs1_val(old(cpu)@, instr)) < signed(rs2_val(old(cpu)@, instr))),
        ),
{
    let a: u32 = cpu.xregs.read(rs1(instr));
    let b: u32 = cpu.xregs.read(rs2(instr));
    let val: u32 = if signed_lt(a, b) {
        1
    } else {
        0
    };
    cpu.xregs.write(rd(instr), val);
}

/// SLTU: 1 goes to rd when rs1 is below rs2 in the unsigned order, else 0.
pub fn exec_sltu(cpu: &mut CPU, instr: u32)
    requires
        old(cpu).wf(),
    ensures
        final(cpu).wf(),
        final(cpu)@ == with_rd(
            old(cpu)@,
            instr,
            b2u(rs1_val(old(cpu)@, instr) < rs2_val(old(cpu)@, instr)),
        ),
{
    let a: u32 = cpu.xregs.read(rs1(instr));
    let b: u32 = cpu.xregs.read(rs2(instr));
    let val: u32 = if a < b {
        1
    } else {
        0
    };
    cpu.xregs.write(rd(instr), val);
}

/// XOR: rs1 xor rs2 goes to rd.
pub fn exec_xor(cpu: &mut CPU, instr: u32)
    requires
        old(cpu).wf(),
    ensures
        final(cpu).wf(),
        final(cpu)@ == with_rd(
            old(cpu)@,
            instr,
            rs1_val(old(cpu)@, instr) ^ rs2_val(old(cpu)@, instr),
        ),
{
    let a: u32 = cpu.xregs.read(rs1(instr));
    let b: u32 = cpu.xregs.read(rs2(instr));
    cpu.xregs.write(rd(instr), a ^ b);
}

/// SRL: rs1 shifted right logically by the low five bits of rs2 goes to rd.
pub fn exec_srl(cpu: &mut CPU, instr: u32)
    requires
        old(cpu).wf(),
    ensures
        final(cpu).wf(),
        final(cpu)@ == with_rd(
            old(cpu)@,
            instr,
            rs1_val(old(cpu)@, instr) >> (rs2_val(old(cpu)@, instr) & 0x1f),
        ),
{
    let a: u32 = cpu.xregs.read(rs1(instr));
    let sh: u32 = mask5(cpu.xregs.read(rs2(instr)));
    cpu.xregs.write(rd(instr), a >> sh);
}

/// SRA: rs1 shifted right arithmetically by the low five bits of rs2 goes to
/// rd.
pub fn exec_sra(cpu: &mut CPU, instr: u32)
    requires
        old(cpu).wf(),
    ensures
        final(cpu).wf(),
        final(cpu)@ == with_rd(
            old(cpu)@,
            instr,
            sra32(rs1_val(old(cpu)@, instr), rs2_val(old(cpu)@, instr) & 0x1f),
        ),
{
    let a: u32 = cpu.xregs.read(rs1(instr));
    let sh: u32 = mask5(cpu.xregs.read(rs2(instr)));
    let val: u32 = if a >= 0x8000_0000 {
        (a >> sh) | !(0xffff_ffffu32 >> sh)
    } else {
        a >> sh
    };
    cpu.xregs.write(rd(instr), val);
}

/// OR: rs1 or rs2 goes to rd.
pub fn exec_or(cpu: &mut CPU, instr: u32)
    requires
        old(cpu).wf(),
    ensures
        final(cpu).wf(),
        final(cpu)@ == with_rd(
            old(cpu)@,
            instr,
            rs1_val(old(cpu)@, instr) | rs2_val(old(cpu)@, instr),
        ),
{
    let a: u32 = cpu.xregs.read(rs1(instr));
    let b: u32 = cpu.xregs.read(rs2(instr));
    cpu.xregs.write(rd(instr), a | b);
}

/// AND: rs1 and rs2 goes to rd.
pub fn exec_and(cpu: &mut CPU, instr: u32)
    requires
        old(cpu).wf(),
    ensures
        final(cpu).wf(),
        final(cpu)@ == with_rd(
            old(cpu)@,
            instr,
            rs1_val(old(cpu)@, instr) & rs2_val(old(cpu)@, instr),
        ),
{
    let a: u32 = cpu.xregs.read(rs1(instr));
    let b: u32 = cpu.xregs.read(rs2(instr));
    cpu.xregs.write(rd(instr), a & b);
}

// Jumps.

/// JAL: the return address (the instruction after this one) goes to rd; the
/// program counter takes the J-offset target, minus the width the driving
/// loop adds back.
pub fn exec_jal(cpu: &mut CPU, instr: u32)
    requires
        old(cpu).wf(),
    ensures
        final(cpu).wf(),
        final(cpu)@.mem == old(cpu)@.mem,
        final(cpu)@.regs == reg_upd(old(cpu)@.regs, rd_of(instr) as int, wadd(old(cpu)@.pc, 4)),
        final(cpu)@.pc == branch_pc(old(cpu)@.pc, imm_j_of(instr)),
{
    let ret: u32 = cpu.pc.wrapping_add(4);
    cpu.xregs.write(rd(instr), ret);
    cpu.pc = cpu.pc.wrapping_add(imm_j(instr)).wrapping_sub(4);
}

/// JALR: the return address goes to rd; the program counter takes rs1 plus
/// the I-immediate with the low bit forced to zero, minus the width the
/// driving loop adds back.  The target is computed from rs1 before rd is
/// written, so the two effects stay independent even when rd and rs1 name
/// the same register.
pub fn exec_jalr(cpu: &mut CPU, instr: u32)
    requires
        old(cpu).wf(),
    ensures
        final(cpu).wf(),
        final(cpu)@.mem == old(cpu)@.mem,
        final(cpu)@.regs == reg_upd(old(cpu)@.regs, rd_of(instr) as int, wadd(old(cpu)@.pc, 4)),
        final(cpu)@.pc == wsub(
            wadd(rs1_val(old(cpu)@, instr), imm_i_of(instr)) & 0xffff_fffe,
            4,
        ),
{
    let target: u32 = cpu.xregs.read(rs1(instr)).wrapping_add(imm_i(instr)) & 0xffff_fffe;
    let ret: u32 = cpu.pc.wrapping_add(4);
    cpu.xregs.write(rd(instr), ret);
    cpu.pc = target.wrapping_sub(4);
}

// Conditional branches.

/// BEQ: taken when rs1 equals rs2.
pub fn exec_beq(cpu: &mut CPU, instr: u32)
    requires
        old(cpu).wf(),
    ensures
        final(cpu).wf(),
        final(cpu)@ == branch(
            old(cpu)@,
            instr,
            rs1_val(old(cpu)@, instr) == rs2_val(old(cpu)@, instr),
        ),
{
    let a: u32 = cpu.xregs.read(rs1(instr));
    let b: u32 = cpu.xregs.read(rs2(instr));
    if a == b {
        cpu.pc = cpu.pc.wrapping_add(imm_b(instr)).wrapping_sub(4);
    }
}

/// BNE: taken when rs1 differs from rs2.
pub fn exec_bne(cpu: &mut CPU, instr: u32)
    requires
        old(cpu).wf(),
    ensures
        final(cpu).wf(),
        final(cpu)@ == branch(
            old(cpu)@,
            instr,
            rs1_val(old(cpu)@, instr) != rs2_val(old(cpu)@, instr),
        ),
{
    let a: u32 = cpu.xregs.read(rs1(instr));
    let b: u32 = cpu.xregs.read(rs2(instr));
    if a != b {
        cpu.pc = cpu.pc.wrapping_add(imm_b(instr)).wrapping_sub(4);
    }
}

/// BLT: taken when rs1 is below rs2 in the signed order.
pub fn exec_blt(cpu: &mut CPU, instr: u32)
    requires
        old(cpu).wf(),
    ensures
        final(cpu).wf(),
        final(cpu)@ == branch(
            old(cpu)@,
            instr,
            signed(rs1_val(old(cpu)@, instr)) < signed(rs2_val(old(cpu)@, instr)),
        ),
{
    let a: u32 = cpu.xregs.read(rs1(instr));
    let b: u32 = cpu.xregs.read(rs2(instr));
    if signed_lt(a, b) {
        cpu.pc = cpu.pc.wrapping_add(imm_b(instr)).wrapping_sub(4);
    }
}

/// BGE: taken when rs1 is at or above rs2 in the signed order.
pub fn exec_bge(cpu: &mut CPU, instr: u32)
    requires
        old(cpu).wf(),
    ensures
        final(cpu).wf(),
        final(cpu)@ == branch(
            old(cpu)@,
            instr,
            signed(rs1_val(old(cpu)@, instr)) >= signed(rs2_val(old(cpu)@, instr)),
        ),
{
    let a: u32 = cpu.xregs.read(rs1(instr));
    let b: u32 = cpu.xregs.read(rs2(instr));
    if !signed_lt(a, b) {
        cpu.pc = cpu.pc.wrapping_add(imm_b(instr)).wrapping_sub(4);
    }
}

/// BLTU: taken when rs1 is below rs2 in the unsigned order.
pub fn exec_bltu(cpu: &mut CPU, instr: u32)
    requires
        old(cpu).wf(),
    ensures
        final(cpu).wf(),
        final(cpu)@ == branch(
            old(cpu)@,
            instr,
            rs1_val(old(cpu)@, instr) < rs2_val(old(cpu)@, instr),
        ),
{
    let a: u32 = cpu.xregs.read(rs1(instr));
    let b: u32 = cpu.xregs.read(rs2(instr));
    if a < b {
        cpu.pc = cpu.pc.wrapping_add(imm_b(instr)).wrapping_sub(4);
    }
}

/// BGEU: taken when rs1 is at or above rs2 in the unsigned order.
pub fn exec_bgeu(cpu: &mut CPU, instr: u32)
    requires
        old(cpu).wf(),
    ensures
        final(cpu).wf(),
        final(cpu)@ == branch(
            old(cpu)@,
            instr,
            rs1_val(old(cpu)@, instr) >= rs2_val(old(cpu)@, instr),
        ),
{
    let a: u32 = cpu.xregs.read(rs1(instr));
    let b: u32 = cpu.xregs.read(rs2(instr));
    if a >= b {
        cpu.pc = cpu.pc.wrapping_add(imm_b(instr)).wrapping_sub(4);
    }
}

// Loads: effective address is rs1 plus the sign-extended I-immediate, with
// wraparound; a fault leaves the state untouched.

/// LB: the byte at the effective address, sign-extended, goes to rd.
pub fn exec_lb(cpu: &mut CPU, instr: u32) -> (r: Result<(), Exception>)
    requires
        old(cpu).wf(),
    ensures
        final(cpu).wf(),
        ({
            let ea = wadd(rs1_val(old(cpu)@, instr), imm_i_of(instr));
            if in_mem_range(ea, 1) {
                r == Ok::<(), Exception>(()) && final(cpu)@ == with_rd(
                    old(cpu)@,
                    instr,
                    sext8(byte_at(old(cpu)@.mem, ea)),
                )
            } else {
                r == Err::<(), Exception>(Exception::MemoryFault) && final(cpu)@ == old(cpu)@
            }
        }),
{
    let addr: u32 = cpu.xregs.read(rs1(instr)).wrapping_add(imm_i(instr));
    match cpu.bus.load(addr, 8) {
        Ok(v) => {
            let val: u32 = if v >= 0x80 {
                v + 0xffff_ff00
            } else {
                v
            };
            cpu.xregs.write(rd(instr), val);
            Ok(())
        },
        Err(e) => Err(e),
    }
}

/// LH: the halfword at the effective address, sign-extended, goes to rd.
pub fn exec_lh(cpu: &mut CPU, instr: u32) -> (r: Result<(), Exception>)
    requires
        old(cpu).wf(),
    ensures
        final(cpu).wf(),
        ({
            let ea = wadd(rs1_val(old(cpu)@, instr), imm_i_of(instr));
            if in_mem_range(ea, 2) {
                r == Ok::<(), Exception>(()) && final(cpu)@ == with_rd(
                    old(cpu)@,
                    instr,
                    sext16(load_half(old(cpu)@.mem, ea)),
                )
            } else {
                r == Err::<(), Exception>(Exception::MemoryFault) && final(cpu)@ == old(cpu)@
            }
        }),
{
    let addr: u32 = cpu.xregs.read(rs1(instr)).wrapping_add(imm_i(instr));
    match cpu.bus.load(addr, 16) {
        Ok(v) => {
            let val: u32 = if v >= 0x8000 {
                v + 0xffff_0000
            } else {
                v
            };
            cpu.xregs.write(rd(instr), val);
            Ok(())
        },
        Err(e) => Err(e),
    }
}

/// LW: the word at the effective address goes to rd unmodified.
pub fn exec_lw(cpu: &mut CPU, instr: u32) -> (r: Result<(), Exception>)
    requires
        old(cpu).wf(),
    ensures
        final(cpu).wf(),
        ({
            let ea = wadd(rs1_val(old(cpu)@, instr), imm_i_of(instr));
            if in_mem_range(ea, 4) {
                r == Ok::<(), Exception>(()) && final(cpu)@ == with_rd(
                    old(cpu)@,
                    instr,
                    load_word(old(cpu)@.mem, ea),
                )
            } else {
                r == Err::<(), Exception>(Exception::MemoryFault) && final(cpu)@ == old(cpu)@
            }
        }),
{
    let addr: u32 = cpu.xregs.read(rs1(instr)).wrapping_add(imm_i(instr));
    match cpu.bus.load(addr, 32) {
        Ok(v) => {
            cpu.xregs.write(rd(instr), v);
            Ok(())
        },
        Err(e) => Err(e),
    }
}

/// LBU: the byte at the effective address, zero-extended, goes to rd.
pub fn exec_lbu(cpu: &mut CPU, instr: u32) -> (r: Result<(), Exception>)
    requires
        old(cpu).wf(),
    ensures
        final(cpu).wf(),
        ({
            let ea = wadd(rs1_val(old(cpu)@, instr), imm_i_of(instr));
            if in_mem_range(ea, 1) {
                r == Ok::<(), Exception>(()) && final(cpu)@ == with_rd(
                    old(cpu)@,
                    instr,
                    byte_at(old(cpu)@.mem, ea),
                )
            } else {
                r == Err::<(), Exception>(Exception::MemoryFault) && final(cpu)@ == old(cpu)@
            }
        }),
{
    let addr: u32 = cpu.xregs.read(rs1(instr)).wrapping_add(imm_i(instr));
    match cpu.bus.load(addr, 8) {
        Ok(v) => {
            cpu.xregs.write(rd(instr), v);
            Ok(())
        },
        Err(e) => Err(e),
    }
}

/// LHU: the halfword at the effective address, zero-extended, goes to rd.
pub fn exec_lhu(cpu: &mut CPU, instr: u32) -> (r: Result<(), Exception>)
    requires
        old(cpu).wf(),
    ensures
        final(cpu).wf(),
        ({
            let ea = wadd(rs1_val(old(cpu)@, instr), imm_i_of(instr));
            if in_mem_range(ea, 2) {
                r == Ok::<(), Exception>(()) && final(cpu)@ == with_rd(
                    old(cpu)@,
                    instr,
                    load_half(old(cpu)@.mem, ea),
                )
            } else {
                r == Err::<(), Exception>(Exception::MemoryFault) && final(cpu)@ == old(cpu)@
            }
        }),
{
    let addr: u32 = cpu.xregs.read(rs1(instr)).wrapping_add(imm_i(instr));
    match cpu.bus.load(addr, 16) {
        Ok(v) => {
            cpu.xregs.write(rd(instr), v);
            Ok(())
        },
        Err(e) => Err(e),
    }
}

/// LWU: the word at the effective address goes to rd unmodified.
pub fn exec_lwu(cpu: &mut CPU, instr: u32) -> (r: Result<(), Exception>)
    requires
        old(cpu).wf(),
    ensures
        final(cpu).wf(),
        ({
            let ea = wadd(rs1_val(old(cpu)@, instr), imm_i_of(instr));
            if in_mem_range(ea, 4) {
                r == Ok::<(), Exception>(()) && final(cpu)@ == with_rd(
                    old(cpu)@,
                    instr,
                    load_word(old(cpu)@.mem, ea),
                )
            } else {
                r == Err::<(), Exception>(Exception::MemoryFault) && final(cpu)@ == old(cpu)@
            }
        }),
{
    let addr: u32 = cpu.xregs.read(rs1(instr)).wrapping_add(imm_i(instr));
    match cpu.bus.load(addr, 32) {
        Ok(v) => {
            cpu.xregs.write(rd(instr), v);
            Ok(())
        },
        Err(e) => Err(e),
    }
}

// Stores: effective address is rs1 plus the sign-extended S-immediate, with
// wraparound; the value is rs2, truncated to the store width by the bus.

/// SB: the low byte of rs2 goes to memory at the effective address.
pub fn exec_sb(cpu: &mut CPU, instr: u32) -> (r: Result<(), Exception>)
    requires
        old(cpu).wf(),
    ensures
        final(cpu).wf(),
        ({
            let ea = wadd(rs1_val(old(cpu)@, instr), imm_s_of(instr));
            if in_mem_range(ea, 1) {
                r is Ok && final(cpu)@ == with_mem(
                    old(cpu)@,
                    store_byte(old(cpu)@.mem, ea, rs2_val(old(cpu)@, instr)),
                )
            } else {
                r == Err::<(), Exception>(Exception::MemoryFault) && final(cpu)@ == old(cpu)@
            }
        }),
{
    let addr: u32 = cpu.xregs.read(rs1(instr)).wrapping_add(imm_s(instr));
    let val: u32 = cpu.xregs.read(rs2(instr));
    cpu.bus.store(addr, 8, val)
}

/// SH: the low halfword of rs2 goes to memory at the effective address.
pub fn exec_sh(cpu: &mut CPU, instr: u32) -> (r: Result<(), Exception>)
    requires
        old(cpu).wf(),
    ensures
        final(cpu).wf(),
        ({
            let ea = wadd(rs1_val(old(cpu)@, instr), imm_s_of(instr));
            if in_mem_range(ea, 2) {
                r is Ok && final(cpu)@ == with_mem(
                    old(cpu)@,
                    store_half(old(cpu)@.mem, ea, rs2_val(old(cpu)@, instr)),
                )
            } else {
                r == Err::<(), Exception>(Exception::MemoryFault) && final(cpu)@ == old(cpu)@
            }
        }),
{
    let addr: u32 = cpu.xregs.read(rs1(instr)).wrapping_add(imm_s(instr));
    let val: u32 = cpu.xregs.read(rs2(instr));
    cpu.bus.store(addr, 16, val)
}

/// SW: all of rs2 goes to memory at the effective address.
pub fn exec_sw(cpu: &mut CPU, instr: u32) -> (r: Result<(), Exception>)
    requires
        old(cpu).wf(),
    ensures
        final(cpu).wf(),
        ({
            let ea = wadd(rs1_val(old(cpu)@, instr), imm_s_of(instr));
            if in_mem_range(ea, 4) {
                r is Ok && final(cpu)@ == with_mem(
                    old(cpu)@,
                    store_word(old(cpu)@.mem, ea, rs2_val(old(cpu)@, instr)),
                )
            } else {
                r == Err::<(), Exception>(Exception::MemoryFault) && final(cpu)@ == old(cpu)@
            }
        }),
{
    let addr: u32 = cpu.xregs.read(rs1(instr)).wrapping_add(imm_s(instr));
    let val: u32 = cpu.xregs.read(rs2(instr));
    cpu.bus.store(addr, 32, val)
}

// Reserved extension points: accepted by the dispatcher, no architectural
// effect yet.  They are kept distinct from IllegalInstruction on purpose.

/// FENCE: no observable architectural effect.
pub fn exec_fence(cpu: &mut CPU, _instr: u32)
    ensures
        *final(cpu) == *old(cpu),
{
}

/// FENCE.I: no observable architectural effect.
pub fn exec_fence_i(cpu: &mut CPU, _instr: u32)
    ensures
        *final(cpu) == *old(cpu),
{
}

/// ECALL: no observable architectural effect; reserved for a future
/// privileged subsystem.
pub fn exec_ecall(cpu: &mut CPU, _instr: u32)
    ensures
        *final(cpu) == *old(cpu),
{
}

/// EBREAK: no observable architectural effect; reserved for a future
/// privileged subsystem.
pub fn exec_ebreak(cpu: &mut CPU, _instr: u32)
    ensures
        *final(cpu) == *old(cpu),
{
}

/// CSRRW: no observable architectural effect; reserved for a future CSR
/// subsystem.
pub fn exec_csrrw(cpu: &mut CPU, _instr: u32)
    ensures
        *final(cpu) == *old(cpu),
{
}

/// CSRRS: no observable architectural effect; reserved for a future CSR
/// subsystem.
pub fn exec_csrrs(cpu: &mut CPU, _instr: u32)
    ensures
        *final(cpu) == *old(cpu),
{
}

/// CSRRC: no observable architectural effect; reserved for a future CSR
/// subsystem.
pub fn exec_csrrc(cpu: &mut CPU, _instr: u32)
    ensures
        *final(cpu) == *old(cpu),
{
}

/// CSRRWI: no observable architectural effect; reserved for a future CSR
/// subsystem.
pub fn exec_csrrwi(cpu: &mut CPU, _instr: u32)
    ensures
        *final(cpu) == *old(cpu),
{
}

/// CSRRSI: no observable architectural effect; reserved for a future CSR
/// subsystem.
pub fn exec_csrrsi(cpu: &mut CPU, _instr: u32)
    ensures
        *final(cpu) == *old(cpu),
{
}

/// CSRRCI: no observable architectural effect; reserved for a future CSR
/// subsystem.
pub fn exec_csrrci(cpu: &mut CPU, _instr: u32)
    ensures
        *final(cpu) == *old(cpu),
{
}

} // verus!
