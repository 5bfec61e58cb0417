use emurv::cpu::{self, CPU};
use emurv::exception::Exception;
use emurv::memory::{MEM_BASE, MEM_SIZE};
use emurv::opcode::{B_TYPE, CSR, I_TYPE, JALR, LOAD, LUI, R_TYPE, S_TYPE};

// Instruction encoders, one per format.

fn enc_i(imm: i32, rs1: u32, funct3: u32, rd: u32, opcode: u32) -> u32 {
    (((imm as u32) & 0xfff) << 20) | (rs1 << 15) | (funct3 << 12) | (rd << 7) | opcode
}

fn enc_u(imm: u32, rd: u32, opcode: u32) -> u32 {
    (imm & 0xffff_f000) | (rd << 7) | opcode
}

fn enc_r(funct7: u32, rs2: u32, rs1: u32, funct3: u32, rd: u32) -> u32 {
    (funct7 << 25) | (rs2 << 20) | (rs1 << 15) | (funct3 << 12) | (rd << 7) | R_TYPE
}

fn enc_s(imm: i32, rs2: u32, rs1: u32, funct3: u32) -> u32 {
    let i = (imm as u32) & 0xfff;
    ((i >> 5) << 25) | (rs2 << 20) | (rs1 << 15) | (funct3 << 12) | ((i & 0x1f) << 7) | S_TYPE
}

fn enc_b(imm: i32, rs2: u32, rs1: u32, funct3: u32) -> u32 {
    let i = (imm as u32) & 0x1fff;
    (((i >> 12) & 1) << 31) | (((i >> 5) & 0x3f) << 25) | (rs2 << 20) | (rs1 << 15)
        | (funct3 << 12) | (((i >> 1) & 0xf) << 8) | (((i >> 11) & 1) << 7) | B_TYPE
}

fn enc_j(imm: i32, rd: u32) -> u32 {
    let i = (imm as u32) & 0x1f_ffff;
    (((i >> 20) & 1) << 31) | (((i >> 1) & 0x3ff) << 21) | (((i >> 11) & 1) << 20)
        | (((i >> 12) & 0xff) << 12) | (rd << 7) | 0x6f
}

fn set_reg(cpu: &mut CPU, rd: u32, val: i32) {
    // ADDI from x0 reaches any 12-bit signed value.
    cpu.execute(enc_i(val, 0, 0x0, rd, I_TYPE)).unwrap();
}

fn set_reg_u32(cpu: &mut CPU, rd: u32, val: u32) {
    // LUI then ADDI; compensate when the low half acts as a negative ADDI.
    let low = val & 0xfff;
    let upper = if low >= 0x800 {
        val.wrapping_add(0x1000) & 0xffff_f000
    } else {
        val & 0xffff_f000
    };
    cpu.execute(enc_u(upper, rd, LUI)).unwrap();
    cpu.execute(enc_i(low as i32, rd, 0x0, rd, I_TYPE)).unwrap();
    assert_eq!(cpu.xregs.read(rd), val);
}

#[test]
fn initial_state() {
    let cpu = CPU::new();
    assert_eq!(cpu.pc, MEM_BASE);
    assert_eq!(cpu.xregs.read(2), MEM_BASE + MEM_SIZE);
    for i in 0..32 {
        if i != 2 {
            assert_eq!(cpu.xregs.read(i), 0);
        }
    }
}

#[test]
fn fetch_reads_word_at_pc() {
    let mut cpu = CPU::new();
    // Fresh memory is zeroed.
    assert_eq!(cpu.fetch(), Ok(0));
    cpu.bus.store(MEM_BASE, 32, 0x1234_5678).unwrap();
    assert_eq!(cpu.fetch(), Ok(0x1234_5678));
    cpu.pc = MEM_BASE - 4;
    assert_eq!(cpu.fetch(), Err(Exception::MemoryFault));
}

#[test]
fn register_write_then_read() {
    let mut cpu = CPU::new();
    set_reg(&mut cpu, 5, 77);
    assert_eq!(cpu.xregs.read(5), 77);
    // A write aimed at x0 is discarded; x0 keeps reading zero.
    set_reg(&mut cpu, 0, 7);
    assert_eq!(cpu.xregs.read(0), 0);
    // The write to x5 is still there.
    assert_eq!(cpu.xregs.read(5), 77);
}

#[test]
fn addi_basic() {
    let mut cpu = CPU::new();
    // ADDI x5, x0, 10
    cpu.execute(enc_i(10, 0, 0x0, 5, I_TYPE)).unwrap();
    assert_eq!(cpu.xregs.read(5), 10);
}

#[test]
fn addi_negative_and_wraparound() {
    let mut cpu = CPU::new();
    set_reg(&mut cpu, 5, -5);
    assert_eq!(cpu.xregs.read(5), 0xffff_fffb);
    set_reg_u32(&mut cpu, 6, 0xffff_ffff);
    // ADDI x7, x6, 1 wraps to 0.
    cpu.execute(enc_i(1, 6, 0x0, 7, I_TYPE)).unwrap();
    assert_eq!(cpu.xregs.read(7), 0);
}

#[test]
fn lui_basic() {
    let mut cpu = CPU::new();
    // LUI x1, 0x12345
    cpu.execute(enc_u(0x12345 << 12, 1, LUI)).unwrap();
    assert_eq!(cpu.xregs.read(1), 0x1234_5000);
}

#[test]
fn auipc_adds_pc() {
    let mut cpu = CPU::new();
    cpu.pc = MEM_BASE + 0x100;
    cpu.execute(enc_u(0x1000, 3, 0x17)).unwrap();
    assert_eq!(cpu.xregs.read(3), MEM_BASE + 0x100 + 0x1000);
    // The program counter itself is untouched.
    assert_eq!(cpu.pc, MEM_BASE + 0x100);
}

#[test]
fn sw_lw_round_trip() {
    let mut cpu = CPU::new();
    set_reg_u32(&mut cpu, 1, MEM_BASE);
    set_reg_u32(&mut cpu, 2, 0x1234_5678);
    // SW x2, 16(x1); LW x3, 16(x1)
    cpu.execute(enc_s(16, 2, 1, 0x2)).unwrap();
    cpu.execute(enc_i(16, 1, 0x2, 3, LOAD)).unwrap();
    assert_eq!(cpu.xregs.read(3), 0x1234_5678);
    // And again with a value whose every byte has the top bit set.
    set_reg_u32(&mut cpu, 2, 0xdead_beef);
    cpu.execute(enc_s(20, 2, 1, 0x2)).unwrap();
    cpu.execute(enc_i(20, 1, 0x2, 4, LOAD)).unwrap();
    assert_eq!(cpu.xregs.read(4), 0xdead_beef);
}

#[test]
fn store_little_endian_layout() {
    let mut cpu = CPU::new();
    set_reg_u32(&mut cpu, 1, MEM_BASE);
    set_reg_u32(&mut cpu, 2, 0x1234_5678);
    cpu.execute(enc_s(0, 2, 1, 0x2)).unwrap();
    // LBU of each byte, lowest first.
    cpu.execute(enc_i(0, 1, 0x4, 3, LOAD)).unwrap();
    assert_eq!(cpu.xregs.read(3), 0x78);
    cpu.execute(enc_i(1, 1, 0x4, 3, LOAD)).unwrap();
    assert_eq!(cpu.xregs.read(3), 0x56);
    cpu.execute(enc_i(2, 1, 0x4, 3, LOAD)).unwrap();
    assert_eq!(cpu.xregs.read(3), 0x34);
    cpu.execute(enc_i(3, 1, 0x4, 3, LOAD)).unwrap();
    assert_eq!(cpu.xregs.read(3), 0x12);
    // LHU of each half.
    cpu.execute(enc_i(0, 1, 0x5, 4, LOAD)).unwrap();
    assert_eq!(cpu.xregs.read(4), 0x5678);
    cpu.execute(enc_i(2, 1, 0x5, 4, LOAD)).unwrap();
    assert_eq!(cpu.xregs.read(4), 0x1234);
}

#[test]
fn lb_sign_extends_lbu_zero_extends() {
    let mut cpu = CPU::new();
    set_reg_u32(&mut cpu, 1, MEM_BASE);
    set_reg(&mut cpu, 2, 0xff);
    // SB x2, 8(x1)
    cpu.execute(enc_s(8, 2, 1, 0x0)).unwrap();
    // LB x3, 8(x1) sign-extends 0xff to -1.
    cpu.execute(enc_i(8, 1, 0x0, 3, LOAD)).unwrap();
    assert_eq!(cpu.xregs.read(3), 0xffff_ffff);
    // LBU x4, 8(x1) zero-extends.
    cpu.execute(enc_i(8, 1, 0x4, 4, LOAD)).unwrap();
    assert_eq!(cpu.xregs.read(4), 0x0000_00ff);
}

#[test]
fn lh_sign_extends_lhu_zero_extends() {
    let mut cpu = CPU::new();
    set_reg_u32(&mut cpu, 1, MEM_BASE);
    set_reg_u32(&mut cpu, 2, 0x8001);
    // SH x2, 8(x1)
    cpu.execute(enc_s(8, 2, 1, 0x1)).unwrap();
    cpu.execute(enc_i(8, 1, 0x1, 3, LOAD)).unwrap();
    assert_eq!(cpu.xregs.read(3), 0xffff_8001);
    cpu.execute(enc_i(8, 1, 0x5, 4, LOAD)).unwrap();
    assert_eq!(cpu.xregs.read(4), 0x0000_8001);
}

#[test]
fn lwu_loads_full_word() {
    let mut cpu = CPU::new();
    set_reg_u32(&mut cpu, 1, MEM_BASE);
    set_reg_u32(&mut cpu, 2, 0x8000_0001);
    cpu.execute(enc_s(4, 2, 1, 0x2)).unwrap();
    cpu.execute(enc_i(4, 1, 0x6, 3, LOAD)).unwrap();
    assert_eq!(cpu.xregs.read(3), 0x8000_0001);
}

#[test]
fn sb_sh_truncate_to_width() {
    let mut cpu = CPU::new();
    set_reg_u32(&mut cpu, 1, MEM_BASE);
    set_reg_u32(&mut cpu, 2, 0x1_2345);
    // SB keeps only the low byte.
    cpu.execute(enc_s(0, 2, 1, 0x0)).unwrap();
    cpu.execute(enc_i(0, 1, 0x4, 3, LOAD)).unwrap();
    assert_eq!(cpu.xregs.read(3), 0x45);
    // SH keeps only the low halfword.
    cpu.execute(enc_s(8, 2, 1, 0x1)).unwrap();
    cpu.execute(enc_i(8, 1, 0x5, 4, LOAD)).unwrap();
    assert_eq!(cpu.xregs.read(4), 0x2345);
}

#[test]
fn load_store_out_of_range_fault() {
    let mut cpu = CPU::new();
    // x0 holds 0, far below the memory base.
    assert_eq!(
        cpu.execute(enc_i(0, 0, 0x2, 3, LOAD)),
        Err(Exception::MemoryFault)
    );
    assert_eq!(cpu.execute(enc_s(0, 2, 0, 0x2)), Err(Exception::MemoryFault));
    // The last in-range word is MEM_BASE + MEM_SIZE - 4; one past it faults.
    set_reg_u32(&mut cpu, 1, MEM_BASE + MEM_SIZE - 4);
    cpu.execute(enc_s(0, 2, 1, 0x2)).unwrap();
    assert_eq!(cpu.execute(enc_s(1, 2, 1, 0x2)), Err(Exception::MemoryFault));
    // A fault leaves the registers and the program counter alone.
    let pc = cpu.pc;
    let x3 = cpu.xregs.read(3);
    assert_eq!(
        cpu.execute(enc_i(0, 0, 0x2, 3, LOAD)),
        Err(Exception::MemoryFault)
    );
    assert_eq!(cpu.pc, pc);
    assert_eq!(cpu.xregs.read(3), x3);
}

#[test]
fn branch_taken_and_not_taken() {
    let mut cpu = CPU::new();
    let pc = cpu.pc;
    // BEQ x1, x1, 8 is always taken: the routine leaves target minus 4, the
    // driving loop's +4 nets the true target.
    cpu.execute(enc_b(8, 1, 1, 0x0)).unwrap();
    assert_eq!(cpu.pc.wrapping_add(4), pc + 8);
    // Not taken: the routine leaves the program counter alone, the loop's +4
    // falls through to the next instruction.
    let mut cpu = CPU::new();
    set_reg(&mut cpu, 1, 1);
    let pc = cpu.pc;
    cpu.execute(enc_b(8, 0, 1, 0x0)).unwrap();
    assert_eq!(cpu.pc, pc);
    assert_eq!(cpu.pc.wrapping_add(4), pc + 4);
}

#[test]
fn branch_negative_offset() {
    let mut cpu = CPU::new();
    cpu.pc = MEM_BASE + 0x40;
    // BNE x1, x0, -16 with x1 != 0.
    set_reg(&mut cpu, 1, 3);
    cpu.execute(enc_b(-16, 0, 1, 0x1)).unwrap();
    assert_eq!(cpu.pc.wrapping_add(4), MEM_BASE + 0x40 - 16);
}

#[test]
fn branch_signed_vs_unsigned() {
    // -1 < 1 in the signed order, so BLT takes.
    let mut cpu = CPU::new();
    set_reg(&mut cpu, 1, -1);
    set_reg(&mut cpu, 2, 1);
    let pc = cpu.pc;
    cpu.execute(enc_b(12, 2, 1, 0x4)).unwrap();
    assert_eq!(cpu.pc.wrapping_add(4), pc + 12);
    // 0xffffffff > 1 in the unsigned order, so BLTU falls through.
    let mut cpu = CPU::new();
    set_reg(&mut cpu, 1, -1);
    set_reg(&mut cpu, 2, 1);
    let pc = cpu.pc;
    cpu.execute(enc_b(12, 2, 1, 0x6)).unwrap();
    assert_eq!(cpu.pc, pc);
    // BGE takes on equality.
    let mut cpu = CPU::new();
    let pc = cpu.pc;
    cpu.execute(enc_b(16, 0, 0, 0x5)).unwrap();
    assert_eq!(cpu.pc.wrapping_add(4), pc + 16);
    // BGEU: 0xffffffff >= 1 unsigned.
    let mut cpu = CPU::new();
    set_reg(&mut cpu, 1, -1);
    set_reg(&mut cpu, 2, 1);
    let pc = cpu.pc;
    cpu.execute(enc_b(16, 2, 1, 0x7)).unwrap();
    assert_eq!(cpu.pc.wrapping_add(4), pc + 16);
}

#[test]
fn jal_links_and_jumps() {
    let mut cpu = CPU::new();
    let pc = cpu.pc;
    cpu.execute(enc_j(12, 1)).unwrap();
    assert_eq!(cpu.xregs.read(1), pc + 4);
    assert_eq!(cpu.pc.wrapping_add(4), pc + 12);
}

#[test]
fn jalr_masks_low_bit() {
    let mut cpu = CPU::new();
    set_reg_u32(&mut cpu, 5, MEM_BASE + 0x101);
    let pc = cpu.pc;
    // JALR x1, 0(x5): the odd target address is forced even.
    cpu.execute(enc_i(0, 5, 0x0, 1, JALR)).unwrap();
    assert_eq!(cpu.xregs.read(1), pc + 4);
    assert_eq!(cpu.pc.wrapping_add(4), MEM_BASE + 0x100);
}

#[test]
fn jalr_same_source_and_destination() {
    let mut cpu = CPU::new();
    set_reg_u32(&mut cpu, 5, MEM_BASE + 0x80);
    let pc = cpu.pc;
    // JALR x5, 0(x5): the target comes from the old x5, the link value goes
    // to the new x5.
    cpu.execute(enc_i(0, 5, 0x0, 5, JALR)).unwrap();
    assert_eq!(cpu.xregs.read(5), pc + 4);
    assert_eq!(cpu.pc.wrapping_add(4), MEM_BASE + 0x80);
}

#[test]
fn slti_sltiu() {
    let mut cpu = CPU::new();
    set_reg(&mut cpu, 1, -5);
    // SLTI x3, x1, 1: -5 < 1 signed.
    cpu.execute(enc_i(1, 1, 0x2, 3, I_TYPE)).unwrap();
    assert_eq!(cpu.xregs.read(3), 1);
    // SLTIU x4, x1, 1: 0xfffffffb is not below 1 unsigned.
    cpu.execute(enc_i(1, 1, 0x3, 4, I_TYPE)).unwrap();
    assert_eq!(cpu.xregs.read(4), 0);
}

#[test]
fn xori_ori_andi() {
    let mut cpu = CPU::new();
    set_reg(&mut cpu, 1, 0b1100);
    cpu.execute(enc_i(0b1010, 1, 0x4, 3, I_TYPE)).unwrap();
    assert_eq!(cpu.xregs.read(3), 0b0110);
    cpu.execute(enc_i(0b1010, 1, 0x6, 4, I_TYPE)).unwrap();
    assert_eq!(cpu.xregs.read(4), 0b1110);
    cpu.execute(enc_i(0b1010, 1, 0x7, 5, I_TYPE)).unwrap();
    assert_eq!(cpu.xregs.read(5), 0b1000);
    // A negative immediate is sign-extended before the bit operation.
    cpu.execute(enc_i(-1, 1, 0x4, 6, I_TYPE)).unwrap();
    assert_eq!(cpu.xregs.read(6), !0b1100u32);
}

#[test]
fn slli_masks_shift_amount() {
    let mut cpu = CPU::new();
    set_reg(&mut cpu, 5, 1);
    // The raw immediate 0x0e3 is 227, far over 31, but its low five bits are
    // 3: the shift is by exactly 3.
    cpu.execute(enc_i(0x0e3, 5, 0x1, 6, I_TYPE)).unwrap();
    assert_eq!(cpu.xregs.read(6), 1 << 3);
}

#[test]
fn srli_srai() {
    let mut cpu = CPU::new();
    set_reg_u32(&mut cpu, 1, 0x8000_0000);
    // SRLI shifts zeros in.
    cpu.execute(enc_i(4, 1, 0x5, 3, I_TYPE)).unwrap();
    assert_eq!(cpu.xregs.read(3), 0x0800_0000);
    // SRAI replicates the sign bit: funct7 0x20 means imm bit 10 set.
    cpu.execute(enc_i(0x400 | 4, 1, 0x5, 4, I_TYPE)).unwrap();
    assert_eq!(cpu.xregs.read(4), 0xf800_0000);
}

#[test]
fn add_sub_wraparound() {
    let mut cpu = CPU::new();
    set_reg_u32(&mut cpu, 1, 0xffff_ffff);
    set_reg(&mut cpu, 2, 1);
    // ADD x3, x1, x2 wraps to 0.
    cpu.execute(enc_r(0x00, 2, 1, 0x0, 3)).unwrap();
    assert_eq!(cpu.xregs.read(3), 0);
    // SUB x4, x0, x2 wraps to 0xffffffff.
    cpu.execute(enc_r(0x20, 2, 0, 0x0, 4)).unwrap();
    assert_eq!(cpu.xregs.read(4), 0xffff_ffff);
}

#[test]
fn slt_sltu() {
    let mut cpu = CPU::new();
    set_reg(&mut cpu, 1, -1);
    set_reg(&mut cpu, 2, 1);
    cpu.execute(enc_r(0x00, 2, 1, 0x2, 3)).unwrap();
    assert_eq!(cpu.xregs.read(3), 1);
    cpu.execute(enc_r(0x00, 2, 1, 0x3, 4)).unwrap();
    assert_eq!(cpu.xregs.read(4), 0);
}

#[test]
fn xor_or_and() {
    let mut cpu = CPU::new();
    set_reg(&mut cpu, 1, 0b1100);
    set_reg(&mut cpu, 2, 0b1010);
    cpu.execute(enc_r(0x00, 2, 1, 0x4, 3)).unwrap();
    assert_eq!(cpu.xregs.read(3), 0b0110);
    cpu.execute(enc_r(0x00, 2, 1, 0x6, 4)).unwrap();
    assert_eq!(cpu.xregs.read(4), 0b1110);
    cpu.execute(enc_r(0x00, 2, 1, 0x7, 5)).unwrap();
    assert_eq!(cpu.xregs.read(5), 0b1000);
}

#[test]
fn sll_srl_sra_mask_rs2() {
    let mut cpu = CPU::new();
    set_reg(&mut cpu, 1, 1);
    // x2 = 35: only the low five bits (3) count.
    set_reg(&mut cpu, 2, 35);
    cpu.execute(enc_r(0x00, 2, 1, 0x1, 3)).unwrap();
    assert_eq!(cpu.xregs.read(3), 8);
    set_reg_u32(&mut cpu, 4, 0x8000_0000);
    cpu.execute(enc_r(0x00, 2, 4, 0x5, 5)).unwrap();
    assert_eq!(cpu.xregs.read(5), 0x1000_0000);
    cpu.execute(enc_r(0x20, 2, 4, 0x5, 6)).unwrap();
    assert_eq!(cpu.xregs.read(6), 0xf000_0000);
}

#[test]
fn fence_and_csr_stubs_are_accepted_no_ops() {
    let mut cpu = CPU::new();
    set_reg(&mut cpu, 1, 42);
    let pc = cpu.pc;
    // FENCE.
    assert_eq!(cpu.execute(0x0000_000f), Ok(()));
    // ECALL and EBREAK.
    assert_eq!(cpu.execute(enc_i(0, 0, 0x0, 0, CSR)), Ok(()));
    assert_eq!(cpu.execute(enc_i(1, 0, 0x0, 0, CSR)), Ok(()));
    // The CSR family.
    for funct3 in [0x1, 0x2, 0x3, 0x5, 0x6, 0x7] {
        assert_eq!(cpu.execute(enc_i(0x300, 1, funct3, 7, CSR)), Ok(()));
    }
    // None of them touched the architectural state.
    assert_eq!(cpu.pc, pc);
    assert_eq!(cpu.xregs.read(1), 42);
    assert_eq!(cpu.xregs.read(7), 0);
}

#[test]
fn illegal_instruction_is_reported_not_fatal() {
    let mut cpu = CPU::new();
    set_reg(&mut cpu, 1, 9);
    let pc = cpu.pc;
    // An opcode outside the table.
    assert_eq!(cpu.execute(0xffff_ffff), Err(Exception::IllegalInstruction));
    assert_eq!(cpu.execute(0x0000_0000), Err(Exception::IllegalInstruction));
    // B_TYPE with undefined funct3 2.
    assert_eq!(
        cpu.execute(enc_b(8, 1, 1, 0x2)),
        Err(Exception::IllegalInstruction)
    );
    // LOAD with undefined funct3 7.
    assert_eq!(
        cpu.execute(enc_i(0, 1, 0x7, 3, LOAD)),
        Err(Exception::IllegalInstruction)
    );
    // S_TYPE with undefined funct3 5.
    assert_eq!(
        cpu.execute(enc_s(0, 2, 1, 0x5)),
        Err(Exception::IllegalInstruction)
    );
    // Shift-immediate with a funct7 that is neither SRLI nor SRAI: the raw
    // immediate 0x064 carries funct7 = 0x03, shamt = 4.
    assert_eq!(
        cpu.execute(enc_i(0x064, 1, 0x5, 3, I_TYPE)),
        Err(Exception::IllegalInstruction)
    );
    // R_TYPE ADD/SUB slot with funct7 neither 0x00 nor 0x20.
    assert_eq!(
        cpu.execute(enc_r(0x01, 2, 1, 0x0, 3)),
        Err(Exception::IllegalInstruction)
    );
    // R_TYPE SRL/SRA slot with funct7 neither 0x00 nor 0x20.
    assert_eq!(
        cpu.execute(enc_r(0x11, 2, 1, 0x5, 3)),
        Err(Exception::IllegalInstruction)
    );
    // CSR funct3 0 with an immediate that is neither ECALL nor EBREAK.
    assert_eq!(
        cpu.execute(enc_i(2, 0, 0x0, 0, CSR)),
        Err(Exception::IllegalInstruction)
    );
    // CSR with undefined funct3 4.
    assert_eq!(
        cpu.execute(enc_i(0, 0, 0x4, 0, CSR)),
        Err(Exception::IllegalInstruction)
    );
    // Nothing above disturbed the architectural state.
    assert_eq!(cpu.pc, pc);
    assert_eq!(cpu.xregs.read(1), 9);
    assert_eq!(cpu.xregs.read(3), 0);
}

#[test]
fn free_instruction_routines_match_execute() {
    // The per-instruction routines are callable on their own, as the
    // dispatcher calls them.
    let mut cpu = CPU::new();
    cpu::exec_addi(&mut cpu, enc_i(10, 0, 0x0, 5, I_TYPE));
    assert_eq!(cpu.xregs.read(5), 10);
    cpu::exec_lui(&mut cpu, enc_u(0x12345 << 12, 1, LUI));
    assert_eq!(cpu.xregs.read(1), 0x1234_5000);
    cpu::exec_add(&mut cpu, enc_r(0x00, 5, 1, 0x0, 6));
    assert_eq!(cpu.xregs.read(6), 0x1234_500a);
}
