//! The instruction decoder: from a 32-bit word to a decoded instruction.
//!
//! The low seven bits of the word select the format; the format fixes where the
//! operands lie; the function fields select the operation. A word that names no
//! operation decodes to an illegal-instruction exception that carries the word.

use vstd::prelude::*;
use crate::exceptions::Exception;
use crate::inst::{Inst, ImmType};

verus! {

pub const OPCODE_LOAD: u32 = 0x03;
pub const OPCODE_MISC_MEM: u32 = 0x0f;
pub const OPCODE_OP_IMM: u32 = 0x13;
pub const OPCODE_AUIPC: u32 = 0x17;
pub const OPCODE_OP_IMM_32: u32 = 0x1b;
pub const OPCODE_STORE: u32 = 0x23;
pub const OPCODE_AMO: u32 = 0x2f;
pub const OPCODE_OP: u32 = 0x33;
pub const OPCODE_LUI: u32 = 0x37;
pub const OPCODE_OP_32: u32 = 0x3b;
pub const OPCODE_BRANCH: u32 = 0x63;
pub const OPCODE_JALR: u32 = 0x67;
pub const OPCODE_JAL: u32 = 0x6f;
pub const OPCODE_SYSTEM: u32 = 0x73;

/// Bits 6:0.
pub open spec fn opcode_of(w: u32) -> u32 {
    w & 0x7f
}

/// Bits 11:7.
pub open spec fn rd_of(w: u32) -> usize {
    ((w >> 7) & 0x1f) as usize
}

/// Bits 14:12.
pub open spec fn funct3_of(w: u32) -> u32 {
    (w >> 12) & 0x7
}

/// Bits 19:15.
pub open spec fn rs1_of(w: u32) -> usize {
    ((w >> 15) & 0x1f) as usize
}

/// Bits 24:20.
pub open spec fn rs2_of(w: u32) -> usize {
    ((w >> 20) & 0x1f) as usize
}

/// Bits 31:25.
pub open spec fn funct7_of(w: u32) -> u32 {
    w >> 25
}

/// Bits 31:26, which tell the immediate shifts apart.
pub open spec fn funct6_of(w: u32) -> u32 {
    w >> 26
}

/// Bits 31:27, which tell the atomic operations apart.
pub open spec fn funct5_of(w: u32) -> u32 {
    w >> 27
}

/// Bits 31:20, unsigned: the status-register number, or the code of a
/// privileged instruction.
pub open spec fn field12_of(w: u32) -> u32 {
    w >> 20
}

/// Bits 25:20: the shift amount of a doubleword shift.
pub open spec fn shamt6_of(w: u32) -> u32 {
    (w >> 20) & 0x3f
}

/// Bits 24:20: the shift amount of a word shift.
pub open spec fn shamt5_of(w: u32) -> u32 {
    (w >> 20) & 0x1f
}

/// Bit 26: the acquire flag of an atomic operation.
pub open spec fn aq_of(w: u32) -> bool {
    (w >> 26) & 1 == 1
}

/// Bit 25: the release flag of an atomic operation.
pub open spec fn rl_of(w: u32) -> bool {
    (w >> 25) & 1 == 1
}

/// The immediate of the I format: bits 31:20, sign-extended.
pub open spec fn imm_i_of(w: u32) -> i64 {
    ((w as i32) >> 20) as i64
}

/// The immediate of the S format: bits 31:25 over bits 11:7, sign-extended.
pub open spec fn imm_s_of(w: u32) -> i64 {
    ((((w & 0xfe00_0000) as i32) >> 20) as i64) | (((w >> 7) & 0x1f) as i64)
}

/// The immediate of the B format: bit 31, bit 7, bits 30:25, bits 11:8, and a
/// zero, sign-extended.
pub open spec fn imm_b_of(w: u32) -> i64 {
    ((((w & 0x8000_0000) as i32) >> 19) as i64) | (((w & 0x80) << 4) as i64) | (((w >> 20)
        & 0x7e0) as i64) | (((w >> 7) & 0x1e) as i64)
}

/// The immediate of the U format: bits 31:12 over twelve zeros, sign-extended.
pub open spec fn imm_u_of(w: u32) -> i64 {
    ((w & 0xffff_f000) as i32) as i64
}

/// The immediate of the J format: bit 31, bits 19:12, bit 20, bits 30:21, and a
/// zero, sign-extended.
pub open spec fn imm_j_of(w: u32) -> i64 {
    ((((w & 0x8000_0000) as i32) >> 11) as i64) | ((w & 0xf_f000) as i64) | (((w >> 9)
        & 0x800) as i64) | (((w >> 20) & 0x7fe) as i64)
}

/// What a word that names no operation decodes to.
pub open spec fn illegal(w: u32) -> Result<Inst, Exception> {
    Err(Exception::IllegalInstruction(w as u64))
}

/// The format that an opcode selects, if any: the rows of the opcode table.
pub open spec fn format_of(opcode: u32) -> Option<ImmType> {
    if opcode == OPCODE_LOAD || opcode == OPCODE_MISC_MEM || opcode == OPCODE_OP_IMM || opcode
        == OPCODE_OP_IMM_32 || opcode == OPCODE_JALR || opcode == OPCODE_SYSTEM {
        Some(ImmType::I)
    } else if opcode == OPCODE_AUIPC || opcode == OPCODE_LUI {
        Some(ImmType::U)
    } else if opcode == OPCODE_STORE {
        Some(ImmType::S)
    } else if opcode == OPCODE_AMO || opcode == OPCODE_OP || opcode == OPCODE_OP_32 {
        Some(ImmType::R)
    } else if opcode == OPCODE_BRANCH {
        Some(ImmType::B)
    } else if opcode == OPCODE_JAL {
        Some(ImmType::J)
    } else {
        None
    }
}

/// The loads.
pub open spec fn decode_load_spec(w: u32) -> Result<Inst, Exception> {
    let rd = rd_of(w);
    let rs1 = rs1_of(w);
    let imm = imm_i_of(w);
    let f3 = funct3_of(w);
    if f3 == 0 {
        Ok(Inst::Lb { rd, rs1, imm })
    } else if f3 == 1 {
        Ok(Inst::Lh { rd, rs1, imm })
    } else if f3 == 2 {
        Ok(Inst::Lw { rd, rs1, imm })
    } else if f3 == 3 {
        Ok(Inst::Ld { rd, rs1, imm })
    } else if f3 == 4 {
        Ok(Inst::Lbu { rd, rs1, imm })
    } else if f3 == 5 {
        Ok(Inst::Lhu { rd, rs1, imm })
    } else if f3 == 6 {
        Ok(Inst::Lwu { rd, rs1, imm })
    } else {
        illegal(w)
    }
}

/// Arithmetic with an immediate on the full register.
pub open spec fn decode_op_imm_spec(w: u32) -> Result<Inst, Exception> {
    let rd = rd_of(w);
    let rs1 = rs1_of(w);
    let imm = imm_i_of(w);
    let shamt = shamt6_of(w);
    let f3 = funct3_of(w);
    let f6 = funct6_of(w);
    if f3 == 0 {
        Ok(Inst::Addi { rd, rs1, imm })
    } else if f3 == 1 {
        if f6 == 0 {
            Ok(Inst::Slli { rd, rs1, shamt })
        } else {
            illegal(w)
        }
    } else if f3 == 2 {
        Ok(Inst::Slti { rd, rs1, imm })
    } else if f3 == 3 {
        Ok(Inst::Sltiu { rd, rs1, imm })
    } else if f3 == 4 {
        Ok(Inst::Xori { rd, rs1, imm })
    } else if f3 == 5 {
        if f6 == 0 {
            Ok(Inst::Srli { rd, rs1, shamt })
        } else if f6 == 0x10 {
            Ok(Inst::Srai { rd, rs1, shamt })
        } else {
            illegal(w)
        }
    } else if f3 == 6 {
        Ok(Inst::Ori { rd, rs1, imm })
    } else {
        Ok(Inst::Andi { rd, rs1, imm })
    }
}

/// Arithmetic with an immediate on the low word.
pub open spec fn decode_op_imm_32_spec(w: u32) -> Result<Inst, Exception> {
    let rd = rd_of(w);
    let rs1 = rs1_of(w);
    let imm = imm_i_of(w);
    let shamt = shamt5_of(w);
    let f3 = funct3_of(w);
    let f7 = funct7_of(w);
    if f3 == 0 {
        Ok(Inst::Addiw { rd, rs1, imm })
    } else if f3 == 1 && f7 == 0 {
        Ok(Inst::Slliw { rd, rs1, shamt })
    } else if f3 == 5 && f7 == 0 {
        Ok(Inst::Srliw { rd, rs1, shamt })
    } else if f3 == 5 && f7 == 0x20 {
        Ok(Inst::Sraiw { rd, rs1, shamt })
    } else {
        illegal(w)
    }
}

/// Environment calls, trap returns, the address-translation fence, and the
/// status-register instructions.
pub open spec fn decode_system_spec(w: u32) -> Result<Inst, Exception> {
    let rd = rd_of(w);
    let rs1 = rs1_of(w);
    let f3 = funct3_of(w);
    let code = field12_of(w);
    let csr = code as usize;
    let uimm = rs1 as u64;
    if f3 == 0 {
        if rd == 0 && rs1 == 0 && code == 0 {
            Ok(Inst::Ecall)
        } else if rd == 0 && rs1 == 0 && code == 1 {
            Ok(Inst::Ebreak)
        } else if rd == 0 && rs1 == 0 && code == 0x102 {
            Ok(Inst::Sret)
        } else if rd == 0 && rs1 == 0 && code == 0x302 {
            Ok(Inst::Mret)
        } else if funct7_of(w) != 0 {
            Ok(Inst::Sfencevma)
        } else {
            illegal(w)
        }
    } else if f3 == 1 {
        Ok(Inst::Csrrw { rd, rs1, csr })
    } else if f3 == 2 {
        Ok(Inst::Csrrs { rd, rs1, csr })
    } else if f3 == 3 {
        Ok(Inst::Csrrc { rd, rs1, csr })
    } else if f3 == 5 {
        Ok(Inst::Csrrwi { rd, uimm, csr })
    } else if f3 == 6 {
        Ok(Inst::Csrrsi { rd, uimm, csr })
    } else if f3 == 7 {
        Ok(Inst::Csrrci { rd, uimm, csr })
    } else {
        illegal(w)
    }
}

/// The I format: loads, fences, immediate arithmetic, the indirect jump, and
/// the system instructions.
pub open spec fn decode_i_spec(w: u32) -> Result<Inst, Exception> {
    let rd = rd_of(w);
    let rs1 = rs1_of(w);
    let imm = imm_i_of(w);
    let f3 = funct3_of(w);
    let opcode = opcode_of(w);
    if opcode == OPCODE_LOAD {
        decode_load_spec(w)
    } else if opcode == OPCODE_MISC_MEM {
        if f3 == 0 {
            Ok(Inst::Fence { rd, rs1, imm })
        } else if f3 == 1 {
            Ok(Inst::Fencei { rd, rs1, imm })
        } else {
            illegal(w)
        }
    } else if opcode == OPCODE_OP_IMM {
        decode_op_imm_spec(w)
    } else if opcode == OPCODE_OP_IMM_32 {
        decode_op_imm_32_spec(w)
    } else if opcode == OPCODE_JALR {
        if f3 == 0 {
            Ok(Inst::Jalr { rd, rs1, imm })
        } else {
            illegal(w)
        }
    } else if opcode == OPCODE_SYSTEM {
        decode_system_spec(w)
    } else {
        illegal(w)
    }
}

/// The U format.
pub open spec fn decode_u_spec(w: u32) -> Result<Inst, Exception> {
    let rd = rd_of(w);
    let imm = imm_u_of(w);
    let opcode = opcode_of(w);
    if opcode == OPCODE_AUIPC {
        Ok(Inst::Auipc { rd, imm })
    } else if opcode == OPCODE_LUI {
        Ok(Inst::Lui { rd, imm })
    } else {
        illegal(w)
    }
}

/// The S format: the stores.
pub open spec fn decode_s_spec(w: u32) -> Result<Inst, Exception> {
    let rs1 = rs1_of(w);
    let rs2 = rs2_of(w);
    let imm = imm_s_of(w);
    let f3 = funct3_of(w);
    if opcode_of(w) != OPCODE_STORE {
        illegal(w)
    } else if f3 == 0 {
        Ok(Inst::Sb { rs1, rs2, imm })
    } else if f3 == 1 {
        Ok(Inst::Sh { rs1, rs2, imm })
    } else if f3 == 2 {
        Ok(Inst::Sw { rs1, rs2, imm })
    } else if f3 == 3 {
        Ok(Inst::Sd { rs1, rs2, imm })
    } else {
        illegal(w)
    }
}

/// Register arithmetic on the full register, multiply and divide included.
pub open spec fn decode_op_spec(w: u32) -> Result<Inst, Exception> {
    let rd = rd_of(w);
    let rs1 = rs1_of(w);
    let rs2 = rs2_of(w);
    let f3 = funct3_of(w);
    let f7 = funct7_of(w);
    if f7 == 0 {
        if f3 == 0 {
            Ok(Inst::Add { rd, rs1, rs2 })
        } else if f3 == 1 {
            Ok(Inst::Sll { rd, rs1, rs2 })
        } else if f3 == 2 {
            Ok(Inst::Slt { rd, rs1, rs2 })
        } else if f3 == 3 {
            Ok(Inst::Sltu { rd, rs1, rs2 })
        } else if f3 == 4 {
            Ok(Inst::Xor { rd, rs1, rs2 })
        } else if f3 == 5 {
            Ok(Inst::Srl { rd, rs1, rs2 })
        } else if f3 == 6 {
            Ok(Inst::Or { rd, rs1, rs2 })
        } else {
            Ok(Inst::And { rd, rs1, rs2 })
        }
    } else if f7 == 0x20 {
        if f3 == 0 {
            Ok(Inst::Sub { rd, rs1, rs2 })
        } else if f3 == 5 {
            Ok(Inst::Sra { rd, rs1, rs2 })
        } else {
            illegal(w)
        }
    } else if f7 == 1 {
        if f3 == 0 {
            Ok(Inst::Mul { rd, rs1, rs2 })
        } else if f3 == 1 {
            Ok(Inst::Mulh { rd, rs1, rs2 })
        } else if f3 == 2 {
            Ok(Inst::Mulhsu { rd, rs1, rs2 })
        } else if f3 == 3 {
            Ok(Inst::Mulhu { rd, rs1, rs2 })
        } else if f3 == 4 {
            Ok(Inst::Div { rd, rs1, rs2 })
        } else if f3 == 5 {
            Ok(Inst::Divu { rd, rs1, rs2 })
        } else if f3 == 6 {
            Ok(Inst::Rem { rd, rs1, rs2 })
        } else {
            Ok(Inst::Remu { rd, rs1, rs2 })
        }
    } else {
        illegal(w)
    }
}

/// Register arithmetic on the low word, multiply and divide included.
pub open spec fn decode_op_32_spec(w: u32) -> Result<Inst, Exception> {
    let rd = rd_of(w);
    let rs1 = rs1_of(w);
    let rs2 = rs2_of(w);
    let f3 = funct3_of(w);
    let f7 = funct7_of(w);
    if f7 == 0 {
        if f3 == 0 {
            Ok(Inst::Addw { rd, rs1, rs2 })
        } else if f3 == 1 {
            Ok(Inst::Sllw { rd, rs1, rs2 })
        } else if f3 == 5 {
            Ok(Inst::Srlw { rd, rs1, rs2 })
        } else {
            illegal(w)
        }
    } else if f7 == 0x20 {
        if f3 == 0 {
            Ok(Inst::Subw { rd, rs1, rs2 })
        } else if f3 == 5 {
            Ok(Inst::Sraw { rd, rs1, rs2 })
        } else {
            illegal(w)
        }
    } else if f7 == 1 {
        if f3 == 0 {
            Ok(Inst::Mulw { rd, rs1, rs2 })
        } else if f3 == 4 {
            Ok(Inst::Divw { rd, rs1, rs2 })
        } else if f3 == 5 {
            Ok(Inst::Divuw { rd, rs1, rs2 })
        } else if f3 == 6 {
            Ok(Inst::Remw { rd, rs1, rs2 })
        } else if f3 == 7 {
            Ok(Inst::Remuw { rd, rs1, rs2 })
        } else {
            illegal(w)
        }
    } else {
        illegal(w)
    }
}

/// The atomic operations on a word.
pub open spec fn decode_amo_w_spec(w: u32) -> Result<Inst, Exception> {
    let rd = rd_of(w);
    let rs1 = rs1_of(w);
    let rs2 = rs2_of(w);
    let aq = aq_of(w);
    let rl = rl_of(w);
    let f5 = funct5_of(w);
    if f5 == 0x02 {
        if rs2 == 0 {
            Ok(Inst::Lrw { rd, rs1, aq, rl })
        } else {
            illegal(w)
        }
    } else if f5 == 0x03 {
        Ok(Inst::Scw { rd, rs1, rs2, aq, rl })
    } else if f5 == 0x01 {
        Ok(Inst::Amoswapw { rd, rs1, rs2, aq, rl })
    } else if f5 == 0x00 {
        Ok(Inst::Amoaddw { rd, rs1, rs2, aq, rl })
    } else if f5 == 0x04 {
        Ok(Inst::Amoxorw { rd, rs1, rs2, aq, rl })
    } else if f5 == 0x0c {
        Ok(Inst::Amoandw { rd, rs1, rs2, aq, rl })
    } else if f5 == 0x08 {
        Ok(Inst::Amoorw { rd, rs1, rs2, aq, rl })
    } else if f5 == 0x10 {
        Ok(Inst::Amominw { rd, rs1, rs2, aq, rl })
    } else if f5 == 0x14 {
        Ok(Inst::Amomaxw { rd, rs1, rs2, aq, rl })
    } else if f5 == 0x18 {
        Ok(Inst::Amominuw { rd, rs1, rs2, aq, rl })
    } else if f5 == 0x1c {
        Ok(Inst::Amomaxuw { rd, rs1, rs2, aq, rl })
    } else {
        illegal(w)
    }
}

/// The atomic operations on a doubleword.
pub open spec fn decode_amo_d_spec(w: u32) -> Result<Inst, Exception> {
    let rd = rd_of(w);
    let rs1 = rs1_of(w);
    let rs2 = rs2_of(w);
    let aq = aq_of(w);
    let rl = rl_of(w);
    let f5 = funct5_of(w);
    if f5 == 0x02 {
        if rs2 == 0 {
            Ok(Inst::Lrd { rd, rs1, aq, rl })
        } else {
            illegal(w)
        }
    } else if f5 == 0x03 {
        Ok(Inst::Scd { rd, rs1, rs2, aq, rl })
    } else if f5 == 0x01 {
        Ok(Inst::Amoswapd { rd, rs1, rs2, aq, rl })
    } else if f5 == 0x00 {
        Ok(Inst::Amoaddd { rd, rs1, rs2, aq, rl })
    } else if f5 == 0x04 {
        Ok(Inst::Amoxord { rd, rs1, rs2, aq, rl })
    } else if f5 == 0x0c {
        Ok(Inst::Amoandd { rd, rs1, rs2, aq, rl })
    } else if f5 == 0x08 {
        Ok(Inst::Amoord { rd, rs1, rs2, aq, rl })
    } else if f5 == 0x10 {
        Ok(Inst::Amomind { rd, rs1, rs2, aq, rl })
    } else if f5 == 0x14 {
        Ok(Inst::Amomaxd { rd, rs1, rs2, aq, rl })
    } else if f5 == 0x18 {
        Ok(Inst::Amominud { rd, rs1, rs2, aq, rl })
    } else if f5 == 0x1c {
        Ok(Inst::Amomaxud { rd, rs1, rs2, aq, rl })
    } else {
        illegal(w)
    }
}

/// The R format: register arithmetic and the atomic operations.
pub open spec fn decode_r_spec(w: u32) -> Result<Inst, Exception> {
    let opcode = opcode_of(w);
    let f3 = funct3_of(w);
    if opcode == OPCODE_OP {
        decode_op_spec(w)
    } else if opcode == OPCODE_OP_32 {
        decode_op_32_spec(w)
    } else if opcode == OPCODE_AMO {
        if f3 == 2 {
            decode_amo_w_spec(w)
        } else if f3 == 3 {
            decode_amo_d_spec(w)
        } else {
            illegal(w)
        }
    } else {
        illegal(w)
    }
}

/// The B format: the conditional branches.
pub open spec fn decode_b_spec(w: u32) -> Result<Inst, Exception> {
    let rs1 = rs1_of(w);
    let rs2 = rs2_of(w);
    let imm = imm_b_of(w);
    let f3 = funct3_of(w);
    if opcode_of(w) != OPCODE_BRANCH {
        illegal(w)
    } else if f3 == 0 {
        Ok(Inst::Beq { rs1, rs2, imm })
    } else if f3 == 1 {
        Ok(Inst::Bne { rs1, rs2, imm })
    } else if f3 == 4 {
        Ok(Inst::Blt { rs1, rs2, imm })
    } else if f3 == 5 {
        Ok(Inst::Bge { rs1, rs2, imm })
    } else if f3 == 6 {
        Ok(Inst::Bltu { rs1, rs2, imm })
    } else if f3 == 7 {
        Ok(Inst::Bgeu { rs1, rs2, imm })
    } else {
        illegal(w)
    }
}

/// The J format: the direct jump.
pub open spec fn decode_j_spec(w: u32) -> Result<Inst, Exception> {
    if opcode_of(w) == OPCODE_JAL {
        Ok(Inst::Jal { rd: rd_of(w), imm: imm_j_of(w) })
    } else {
        illegal(w)
    }
}

/// What a word decodes to: the format that its opcode selects decodes it, and a
/// word whose opcode selects no format is illegal.
pub open spec fn decode_spec(w: u32) -> Result<Inst, Exception> {
    match format_of(opcode_of(w)) {
        Some(format) => format.decode_spec(w),
        None => illegal(w),
    }
}

/// The operand fields of every word lie within the bounds of a well-formed
/// instruction.
pub proof fn lemma_field_ranges(w: u32)
    by (bit_vector)
    ensures
        w & 0x7f < 128,
        (w >> 12) & 0x7 < 8,
        (w >> 7) & 0x1f < 32,
        (w >> 15) & 0x1f < 32,
        (w >> 20) & 0x1f < 32,
        (w >> 20) & 0x3f < 64,
        w >> 20 < 4096,
        -2048 <= imm_i_of(w) < 2048,
        -2048 <= imm_s_of(w) < 2048,
        -4096 <= imm_b_of(w) < 4096,
        imm_b_of(w) % 2 == 0,
        -0x10_0000 <= imm_j_of(w) < 0x10_0000,
        imm_j_of(w) % 2 == 0,
{
}

/// The upper immediate of every word is a signed 32-bit multiple of 4096.
pub proof fn lemma_upper_immediate_range(w: u32)
    by (bit_vector)
    ensures
        -0x8000_0000 <= imm_u_of(w) < 0x8000_0000,
        imm_u_of(w) % 4096 == 0,
{
}

/// Every instruction that a word decodes to is well formed, and every failure
/// is the illegal-instruction exception that carries the word.
pub proof fn lemma_decode_wf(w: u32)
    ensures
        decode_spec(w) is Ok ==> decode_spec(w)->Ok_0.wf(),
        decode_spec(w) is Err ==> decode_spec(w) == illegal(w),
        ImmType::R.decode_spec(w) is Ok ==> ImmType::R.decode_spec(w)->Ok_0.wf(),
        ImmType::I.decode_spec(w) is Ok ==> ImmType::I.decode_spec(w)->Ok_0.wf(),
        ImmType::S.decode_spec(w) is Ok ==> ImmType::S.decode_spec(w)->Ok_0.wf(),
        ImmType::B.decode_spec(w) is Ok ==> ImmType::B.decode_spec(w)->Ok_0.wf(),
        ImmType::U.decode_spec(w) is Ok ==> ImmType::U.decode_spec(w)->Ok_0.wf(),
        ImmType::J.decode_spec(w) is Ok ==> ImmType::J.decode_spec(w)->Ok_0.wf(),
{
    lemma_field_ranges(w);
    lemma_upper_immediate_range(w);
}

fn opcode_field(w: u32) -> (r: u32)
    ensures
        r == opcode_of(w),
{
    w & 0x7f
}

fn rd_field(w: u32) -> (r: usize)
    ensures
        r == rd_of(w),
{
    ((w >> 7) & 0x1f) as usize
}

fn funct3_field(w: u32) -> (r: u32)
    ensures
        r == funct3_of(w),
{
    (w >> 12) & 0x7
}

fn rs1_field(w: u32) -> (r: usize)
    ensures
        r == rs1_of(w),
{
    ((w >> 15) & 0x1f) as usize
}

fn rs2_field(w: u32) -> (r: usize)
    ensures
        r == rs2_of(w),
{
    ((w >> 20) & 0x1f) as usize
}

fn funct7_field(w: u32) -> (r: u32)
    ensures
        r == funct7_of(w),
{
    w >> 25
}

fn imm_i_field(w: u32) -> (r: i64)
    ensures
        r == imm_i_of(w),
{
    ((#[verifier::truncate] (w as i32)) >> 20) as i64
}

fn imm_s_field(w: u32) -> (r: i64)
    ensures
        r == imm_s_of(w),
{
    (((#[verifier::truncate] ((w & 0xfe00_0000) as i32)) >> 20) as i64) | (((w >> 7) & 0x1f) as i64)
}

fn imm_b_field(w: u32) -> (r: i64)
    ensures
        r == imm_b_of(w),
{
    (((#[verifier::truncate] ((w & 0x8000_0000) as i32)) >> 19) as i64) | (((w & 0x80) << 4) as i64)
        | (((w >> 20) & 0x7e0) as i64) | (((w >> 7) & 0x1e) as i64)
}

fn imm_u_field(w: u32) -> (r: i64)
    ensures
        r == imm_u_of(w),
{
    (#[verifier::truncate] ((w & 0xffff_f000) as i32)) as i64
}

fn imm_j_field(w: u32) -> (r: i64)
    ensures
        r == imm_j_of(w),
{
    (((#[verifier::truncate] ((w & 0x8000_0000) as i32)) >> 11) as i64) | ((w & 0xf_f000) as i64)
        | (((w >> 9) & 0x800) as i64) | (((w >> 20) & 0x7fe) as i64)
}

fn reject(w: u32) -> (r: Result<Inst, Exception>)
    ensures
        r == illegal(w),
{
    Err(Exception::IllegalInstruction(w as u64))
}

fn decode_load(w: u32) -> (r: Result<Inst, Exception>)
    ensures
        r == decode_load_spec(w),
{
    let rd = rd_field(w);
    let rs1 = rs1_field(w);
    let imm = imm_i_field(w);
    match funct3_field(w) {
        0 => Ok(Inst::Lb { rd, rs1, imm }),
        1 => Ok(Inst::Lh { rd, rs1, imm }),
        2 => Ok(Inst::Lw { rd, rs1, imm }),
        3 => Ok(Inst::Ld { rd, rs1, imm }),
        4 => Ok(Inst::Lbu { rd, rs1, imm }),
        5 => Ok(Inst::Lhu { rd, rs1, imm }),
        6 => Ok(Inst::Lwu { rd, rs1, imm }),
        _ => reject(w),
    }
}

fn decode_op_imm(w: u32) -> (r: Result<Inst, Exception>)
    ensures
        r == decode_op_imm_spec(w),
{
    let rd = rd_field(w);
    let rs1 = rs1_field(w);
    let imm = imm_i_field(w);
    let shamt = (w >> 20) & 0x3f;
    let f6 = w >> 26;
    proof {
        lemma_field_ranges(w);
    }
    match funct3_field(w) {
        0 => Ok(Inst::Addi { rd, rs1, imm }),
        1 => if f6 == 0 {
            Ok(Inst::Slli { rd, rs1, shamt })
        } else {
            reject(w)
        },
        2 => Ok(Inst::Slti { rd, rs1, imm }),
        3 => Ok(Inst::Sltiu { rd, rs1, imm }),
        4 => Ok(Inst::Xori { rd, rs1, imm }),
        5 => if f6 == 0 {
            Ok(Inst::Srli { rd, rs1, shamt })
        } else if f6 == 0x10 {
            Ok(Inst::Srai { rd, rs1, shamt })
        } else {
            reject(w)
        },
        6 => Ok(Inst::Ori { rd, rs1, imm }),
        _ => Ok(Inst::Andi { rd, rs1, imm }),
    }
}

fn decode_op_imm_32(w: u32) -> (r: Result<Inst, Exception>)
    ensures
        r == decode_op_imm_32_spec(w),
{
    let rd = rd_field(w);
    let rs1 = rs1_field(w);
    let imm = imm_i_field(w);
    let shamt = (w >> 20) & 0x1f;
    let f3 = funct3_field(w);
    let f7 = funct7_field(w);
    if f3 == 0 {
        Ok(Inst::Addiw { rd, rs1, imm })
    } else if f3 == 1 && f7 == 0 {
        Ok(Inst::Slliw { rd, rs1, shamt })
    } else if f3 == 5 && f7 == 0 {
        Ok(Inst::Srliw { rd, rs1, shamt })
    } else if f3 == 5 && f7 == 0x20 {
        Ok(Inst::Sraiw { rd, rs1, shamt })
    } else {
        reject(w)
    }
}

fn decode_system(w: u32) -> (r: Result<Inst, Exception>)
    ensures
        r == decode_system_spec(w),
{
    let rd = rd_field(w);
    let rs1 = rs1_field(w);
    let code = w >> 20;
    let csr = code as usize;
    let uimm = rs1 as u64;
    match funct3_field(w) {
        0 => if rd == 0 && rs1 == 0 && code == 0 {
            Ok(Inst::Ecall)
        } else if rd == 0 && rs1 == 0 && code == 1 {
            Ok(Inst::Ebreak)
        } else if rd == 0 && rs1 == 0 && code == 0x102 {
            Ok(Inst::Sret)
        } else if rd == 0 && rs1 == 0 && code == 0x302 {
            Ok(Inst::Mret)
        } else if funct7_field(w) != 0 {
            Ok(Inst::Sfencevma)
        } else {
            reject(w)
        },
        1 => Ok(Inst::Csrrw { rd, rs1, csr }),
        2 => Ok(Inst::Csrrs { rd, rs1, csr }),
        3 => Ok(Inst::Csrrc { rd, rs1, csr }),
        5 => Ok(Inst::Csrrwi { rd, uimm, csr }),
        6 => Ok(Inst::Csrrsi { rd, uimm, csr }),
        7 => Ok(Inst::Csrrci { rd, uimm, csr }),
        _ => reject(w),
    }
}

fn decode_i(w: u32) -> (r: Result<Inst, Exception>)
    ensures
        r == decode_i_spec(w),
{
    let rd = rd_field(w);
    let rs1 = rs1_field(w);
    let imm = imm_i_field(w);
    let f3 = funct3_field(w);
    let opcode = opcode_field(w);
    if opcode == OPCODE_LOAD {
        decode_load(w)
    } else if opcode == OPCODE_MISC_MEM {
        if f3 == 0 {
            Ok(Inst::Fence { rd, rs1, imm })
        } else if f3 == 1 {
            Ok(Inst::Fencei { rd, rs1, imm })
        } else {
            reject(w)
        }
    } else if opcode == OPCODE_OP_IMM {
        decode_op_imm(w)
    } else if opcode == OPCODE_OP_IMM_32 {
        decode_op_imm_32(w)
    } else if opcode == OPCODE_JALR {
        if f3 == 0 {
            Ok(Inst::Jalr { rd, rs1, imm })
        } else {
            reject(w)
        }
    } else if opcode == OPCODE_SYSTEM {
        decode_system(w)
    } else {
        reject(w)
    }
}

fn decode_u(w: u32) -> (r: Result<Inst, Exception>)
    ensures
        r == decode_u_spec(w),
{
    let rd = rd_field(w);
    let imm = imm_u_field(w);
    let opcode = opcode_field(w);
    if opcode == OPCODE_AUIPC {
        Ok(Inst::Auipc { rd, imm })
    } else if opcode == OPCODE_LUI {
        Ok(Inst::Lui { rd, imm })
    } else {
        reject(w)
    }
}

fn decode_s(w: u32) -> (r: Result<Inst, Exception>)
    ensures
        r == decode_s_spec(w),
{
    let rs1 = rs1_field(w);
    let rs2 = rs2_field(w);
    let imm = imm_s_field(w);
    if opcode_field(w) != OPCODE_STORE {
        return reject(w);
    }
    match funct3_field(w) {
        0 => Ok(Inst::Sb { rs1, rs2, imm }),
        1 => Ok(Inst::Sh { rs1, rs2, imm }),
        2 => Ok(Inst::Sw { rs1, rs2, imm }),
        3 => Ok(Inst::Sd { rs1, rs2, imm }),
        _ => reject(w),
    }
}

fn decode_op(w: u32) -> (r: Result<Inst, Exception>)
    ensures
        r == decode_op_spec(w),
{
    let rd = rd_field(w);
    let rs1 = rs1_field(w);
    let rs2 = rs2_field(w);
    let f3 = funct3_field(w);
    let f7 = funct7_field(w);
    proof {
        lemma_field_ranges(w);
    }
    if f7 == 0 {
        match f3 {
            0 => Ok(Inst::Add { rd, rs1, rs2 }),
            1 => Ok(Inst::Sll { rd, rs1, rs2 }),
            2 => Ok(Inst::Slt { rd, rs1, rs2 }),
            3 => Ok(Inst::Sltu { rd, rs1, rs2 }),
            4 => Ok(Inst::Xor { rd, rs1, rs2 }),
            5 => Ok(Inst::Srl { rd, rs1, rs2 }),
            6 => Ok(Inst::Or { rd, rs1, rs2 }),
            _ => Ok(Inst::And { rd, rs1, rs2 }),
        }
    } else if f7 == 0x20 {
        match f3 {
            0 => Ok(Inst::Sub { rd, rs1, rs2 }),
            5 => Ok(Inst::Sra { rd, rs1, rs2 }),
            _ => reject(w),
        }
    } else if f7 == 1 {
        match f3 {
            0 => Ok(Inst::Mul { rd, rs1, rs2 }),
            1 => Ok(Inst::Mulh { rd, rs1, rs2 }),
            2 => Ok(Inst::Mulhsu { rd, rs1, rs2 }),
            3 => Ok(Inst::Mulhu { rd, rs1, rs2 }),
            4 => Ok(Inst::Div { rd, rs1, rs2 }),
            5 => Ok(Inst::Divu { rd, rs1, rs2 }),
            6 => Ok(Inst::Rem { rd, rs1, rs2 }),
            _ => Ok(Inst::Remu { rd, rs1, rs2 }),
        }
    } else {
        reject(w)
    }
}

fn decode_op_32(w: u32) -> (r: Result<Inst, Exception>)
    ensures
        r == decode_op_32_spec(w),
{
    let rd = rd_field(w);
    let rs1 = rs1_field(w);
    let rs2 = rs2_field(w);
    let f3 = funct3_field(w);
    let f7 = funct7_field(w);
    if f7 == 0 {
        match f3 {
            0 => Ok(Inst::Addw { rd, rs1, rs2 }),
            1 => Ok(Inst::Sllw { rd, rs1, rs2 }),
            5 => Ok(Inst::Srlw { rd, rs1, rs2 }),
            _ => reject(w),
        }
    } else if f7 == 0x20 {
        match f3 {
            0 => Ok(Inst::Subw { rd, rs1, rs2 }),
            5 => Ok(Inst::Sraw { rd, rs1, rs2 }),
            _ => reject(w),
        }
    } else if f7 == 1 {
        match f3 {
            0 => Ok(Inst::Mulw { rd, rs1, rs2 }),
            4 => Ok(Inst::Divw { rd, rs1, rs2 }),
            5 => Ok(Inst::Divuw { rd, rs1, rs2 }),
            6 => Ok(Inst::Remw { rd, rs1, rs2 }),
            7 => Ok(Inst::Remuw { rd, rs1, rs2 }),
            _ => reject(w),
        }
    } else {
        reject(w)
    }
}

fn decode_amo_w(w: u32) -> (r: Result<Inst, Exception>)
    ensures
        r == decode_amo_w_spec(w),
{
    let rd = rd_field(w);
    let rs1 = rs1_field(w);
    let rs2 = rs2_field(w);
    let aq = (w >> 26) & 1 == 1;
    let rl = (w >> 25) & 1 == 1;
    match w >> 27 {
        0x02 => if rs2 == 0 {
            Ok(Inst::Lrw { rd, rs1, aq, rl })
        } else {
            reject(w)
        },
        0x03 => Ok(Inst::Scw { rd, rs1, rs2, aq, rl }),
        0x01 => Ok(Inst::Amoswapw { rd, rs1, rs2, aq, rl }),
        0x00 => Ok(Inst::Amoaddw { rd, rs1, rs2, aq, rl }),
        0x04 => Ok(Inst::Amoxorw { rd, rs1, rs2, aq, rl }),
        0x0c => Ok(Inst::Amoandw { rd, rs1, rs2, aq, rl }),
        0x08 => Ok(Inst::Amoorw { rd, rs1, rs2, aq, rl }),
        0x10 => Ok(Inst::Amominw { rd, rs1, rs2, aq, rl }),
        0x14 => Ok(Inst::Amomaxw { rd, rs1, rs2, aq, rl }),
        0x18 => Ok(Inst::Amominuw { rd, rs1, rs2, aq, rl }),
        0x1c => Ok(Inst::Amomaxuw { rd, rs1, rs2, aq, rl }),
        _ => reject(w),
    }
}

fn decode_amo_d(w: u32) -> (r: Result<Inst, Exception>)
    ensures
        r == decode_amo_d_spec(w),
{
    let rd = rd_field(w);
    let rs1 = rs1_field(w);
    let rs2 = rs2_field(w);
    let aq = (w >> 26) & 1 == 1;
    let rl = (w >> 25) & 1 == 1;
    match w >> 27 {
        0x02 => if rs2 == 0 {
            Ok(Inst::Lrd { rd, rs1, aq, rl })
        } else {
            reject(w)
        },
        0x03 => Ok(Inst::Scd { rd, rs1, rs2, aq, rl }),
        0x01 => Ok(Inst::Amoswapd { rd, rs1, rs2, aq, rl }),
        0x00 => Ok(Inst::Amoaddd { rd, rs1, rs2, aq, rl }),
        0x04 => Ok(Inst::Amoxord { rd, rs1, rs2, aq, rl }),
        0x0c => Ok(Inst::Amoandd { rd, rs1, rs2, aq, rl }),
        0x08 => Ok(Inst::Amoord { rd, rs1, rs2, aq, rl }),
        0x10 => Ok(Inst::Amomind { rd, rs1, rs2, aq, rl }),
        0x14 => Ok(Inst::Amomaxd { rd, rs1, rs2, aq, rl }),
        0x18 => Ok(Inst::Amominud { rd, rs1, rs2, aq, rl }),
        0x1c => Ok(Inst::Amomaxud { rd, rs1, rs2, aq, rl }),
        _ => reject(w),
    }
}

fn decode_r(w: u32) -> (r: Result<Inst, Exception>)
    ensures
        r == decode_r_spec(w),
{
    let opcode = opcode_field(w);
    let f3 = funct3_field(w);
    if opcode == OPCODE_OP {
        decode_op(w)
    } else if opcode == OPCODE_OP_32 {
        decode_op_32(w)
    } else if opcode == OPCODE_AMO {
        if f3 == 2 {
            decode_amo_w(w)
        } else if f3 == 3 {
            decode_amo_d(w)
        } else {
            reject(w)
        }
    } else {
        reject(w)
    }
}

fn decode_b(w: u32) -> (r: Result<Inst, Exception>)
    ensures
        r == decode_b_spec(w),
{
    let rs1 = rs1_field(w);
    let rs2 = rs2_field(w);
    let imm = imm_b_field(w);
    if opcode_field(w) != OPCODE_BRANCH {
        return reject(w);
    }
    match funct3_field(w) {
        0 => Ok(Inst::Beq { rs1, rs2, imm }),
        1 => Ok(Inst::Bne { rs1, rs2, imm }),
        4 => Ok(Inst::Blt { rs1, rs2, imm }),
        5 => Ok(Inst::Bge { rs1, rs2, imm }),
        6 => Ok(Inst::Bltu { rs1, rs2, imm }),
        7 => Ok(Inst::Bgeu { rs1, rs2, imm }),
        _ => reject(w),
    }
}

fn decode_j(w: u32) -> (r: Result<Inst, Exception>)
    ensures
        r == decode_j_spec(w),
{
    if opcode_field(w) == OPCODE_JAL {
        Ok(Inst::Jal { rd: rd_field(w), imm: imm_j_field(w) })
    } else {
        reject(w)
    }
}

impl ImmType {
    /// What a word decodes to when read in this format.
    pub open spec fn decode_spec(self, w: u32) -> Result<Inst, Exception> {
        match self {
            ImmType::R => decode_r_spec(w),
            ImmType::I => decode_i_spec(w),
            ImmType::S => decode_s_spec(w),
            ImmType::B => decode_b_spec(w),
            ImmType::U => decode_u_spec(w),
            ImmType::J => decode_j_spec(w),
        }
    }

    /// Looks an opcode up in the opcode table.
    pub fn of_opcode(opcode: u32) -> (r: Option<ImmType>)
        ensures
            r == format_of(opcode),
    {
        match opcode {
            0x03 | 0x0f | 0x13 | 0x1b | 0x67 | 0x73 => Some(ImmType::I),
            0x17 | 0x37 => Some(ImmType::U),
            0x23 => Some(ImmType::S),
            0x2f | 0x33 | 0x3b => Some(ImmType::R),
            0x63 => Some(ImmType::B),
            0x6f => Some(ImmType::J),
            _ => None,
        }
    }

    /// Decodes a word read in this format.
    ///
    /// The result is the instruction that the word encodes, or the
    /// illegal-instruction exception with the word as its trap value where the word
    /// encodes none in this format. An instruction that comes out is well formed.
    pub fn decode(&self, inst: u32) -> (r: Result<Inst, Exception>)
        ensures
            r == self.decode_spec(inst),
            r is Ok ==> r->Ok_0.wf(),
            r is Err ==> r == illegal(inst),
    {
        proof {
            lemma_decode_wf(inst);
        }
        match self {
            ImmType::R => decode_r(inst),
            ImmType::I => decode_i(inst),
            ImmType::S => decode_s(inst),
            ImmType::B => decode_b(inst),
            ImmType::U => decode_u(inst),
            ImmType::J => decode_j(inst),
        }
    }
}

/// Decodes a word: looks its opcode up in the opcode table and decodes it in
/// the format found there.
pub fn decode_word(inst: u32) -> (r: Result<Inst, Exception>)
    ensures
        r == decode_spec(inst),
        r is Ok ==> r->Ok_0.wf(),
        r is Err ==> r == illegal(inst),
        format_of(opcode_of(inst)) is None ==> r == illegal(inst),
{
    proof {
        lemma_decode_wf(inst);
    }
    match ImmType::of_opcode(opcode_field(inst)) {
        Some(format) => format.decode(inst),
        None => reject(inst),
    }
}

} // verus!
