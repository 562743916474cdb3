//! Decoded instructions: one record per operation, with its operands.

use vstd::prelude::*;

verus! {

/// One decoded instruction.
///
/// Register operands are indices into the register file, immediates are
/// sign-extended, and shift amounts are the unsigned count.
#[derive(Debug, Clone, Copy, PartialEq, Eq, Structural)]
pub enum Inst {
    Addi { rd: usize, rs1: usize, imm: i64 },
    Slti { rd: usize, rs1: usize, imm: i64 },
    Sltiu { rd: usize, rs1: usize, imm: i64 },
    Xori { rd: usize, rs1: usize, imm: i64 },
    Ori { rd: usize, rs1: usize, imm: i64 },
    Andi { rd: usize, rs1: usize, imm: i64 },
    Addiw { rd: usize, rs1: usize, imm: i64 },
    Slli { rd: usize, rs1: usize, shamt: u32 },
    Srli { rd: usize, rs1: usize, shamt: u32 },
    Srai { rd: usize, rs1: usize, shamt: u32 },
    Slliw { rd: usize, rs1: usize, shamt: u32 },
    Srliw { rd: usize, rs1: usize, shamt: u32 },
    Sraiw { rd: usize, rs1: usize, shamt: u32 },
    Lb { rd: usize, rs1: usize, imm: i64 },
    Lh { rd: usize, rs1: usize, imm: i64 },
    Lw { rd: usize, rs1: usize, imm: i64 },
    Lbu { rd: usize, rs1: usize, imm: i64 },
    Lhu { rd: usize, rs1: usize, imm: i64 },
    Lwu { rd: usize, rs1: usize, imm: i64 },
    Ld { rd: usize, rs1: usize, imm: i64 },
    Fence { rd: usize, rs1: usize, imm: i64 },
    Fencei { rd: usize, rs1: usize, imm: i64 },
    Jalr { rd: usize, rs1: usize, imm: i64 },
    Ebreak,
    Ecall,
    Sret,
    Mret,
    Sfencevma,
    Csrrw { rd: usize, rs1: usize, csr: usize },
    Csrrs { rd: usize, rs1: usize, csr: usize },
    Csrrc { rd: usize, rs1: usize, csr: usize },
    Csrrwi { rd: usize, uimm: u64, csr: usize },
    Csrrsi { rd: usize, uimm: u64, csr: usize },
    Csrrci { rd: usize, uimm: u64, csr: usize },
    Lui { rd: usize, imm: i64 },
    Auipc { rd: usize, imm: i64 },
    Sb { rs1: usize, rs2: usize, imm: i64 },
    Sh { rs1: usize, rs2: usize, imm: i64 },
    Sw { rs1: usize, rs2: usize, imm: i64 },
    Sd { rs1: usize, rs2: usize, imm: i64 },
    Add { rd: usize, rs1: usize, rs2: usize },
    Sub { rd: usize, rs1: usize, rs2: usize },
    Sll { rd: usize, rs1: usize, rs2: usize },
    Slt { rd: usize, rs1: usize, rs2: usize },
    Sltu { rd: usize, rs1: usize, rs2: usize },
    Xor { rd: usize, rs1: usize, rs2: usize },
    Srl { rd: usize, rs1: usize, rs2: usize },
    Sra { rd: usize, rs1: usize, rs2: usize },
    Or { rd: usize, rs1: usize, rs2: usize },
    And { rd: usize, rs1: usize, rs2: usize },
    Mul { rd: usize, rs1: usize, rs2: usize },
    Mulh { rd: usize, rs1: usize, rs2: usize },
    Mulhsu { rd: usize, rs1: usize, rs2: usize },
    Mulhu { rd: usize, rs1: usize, rs2: usize },
    Div { rd: usize, rs1: usize, rs2: usize },
    Divu { rd: usize, rs1: usize, rs2: usize },
    Rem { rd: usize, rs1: usize, rs2: usize },
    Remu { rd: usize, rs1: usize, rs2: usize },
    Addw { rd: usize, rs1: usize, rs2: usize },
    Subw { rd: usize, rs1: usize, rs2: usize },
    Sllw { rd: usize, rs1: usize, rs2: usize },
    Srlw { rd: usize, rs1: usize, rs2: usize },
    Sraw { rd: usize, rs1: usize, rs2: usize },
    Mulw { rd: usize, rs1: usize, rs2: usize },
    Divw { rd: usize, rs1: usize, rs2: usize },
    Divuw { rd: usize, rs1: usize, rs2: usize },
    Remw { rd: usize, rs1: usize, rs2: usize },
    Remuw { rd: usize, rs1: usize, rs2: usize },
    Lrw { rd: usize, rs1: usize, aq: bool, rl: bool },
    Lrd { rd: usize, rs1: usize, aq: bool, rl: bool },
    Scw { rd: usize, rs1: usize, rs2: usize, aq: bool, rl: bool },
    Scd { rd: usize, rs1: usize, rs2: usize, aq: bool, rl: bool },
    Amoswapw { rd: usize, rs1: usize, rs2: usize, aq: bool, rl: bool },
    Amoaddw { rd: usize, rs1: usize, rs2: usize, aq: bool, rl: bool },
    Amoxorw { rd: usize, rs1: usize, rs2: usize, aq: bool, rl: bool },
    Amoandw { rd: usize, rs1: usize, rs2: usize, aq: bool, rl: bool },
    Amoorw { rd: usize, rs1: usize, rs2: usize, aq: bool, rl: bool },
    Amominw { rd: usize, rs1: usize, rs2: usize, aq: bool, rl: bool },
    Amomaxw { rd: usize, rs1: usize, rs2: usize, aq: bool, rl: bool },
    Amominuw { rd: usize, rs1: usize, rs2: usize, aq: bool, rl: bool },
    Amomaxuw { rd: usize, rs1: usize, rs2: usize, aq: bool, rl: bool },
    Amoswapd { rd: usize, rs1: usize, rs2: usize, aq: bool, rl: bool },
    Amoaddd { rd: usize, rs1: usize, rs2: usize, aq: bool, rl: bool },
    Amoxord { rd: usize, rs1: usize, rs2: usize, aq: bool, rl: bool },
    Amoandd { rd: usize, rs1: usize, rs2: usize, aq: bool, rl: bool },
    Amoord { rd: usize, rs1: usize, rs2: usize, aq: bool, rl: bool },
    Amomind { rd: usize, rs1: usize, rs2: usize, aq: bool, rl: bool },
    Amomaxd { rd: usize, rs1: usize, rs2: usize, aq: bool, rl: bool },
    Amominud { rd: usize, rs1: usize, rs2: usize, aq: bool, rl: bool },
    Amomaxud { rd: usize, rs1: usize, rs2: usize, aq: bool, rl: bool },
    Beq { rs1: usize, rs2: usize, imm: i64 },
    Bne { rs1: usize, rs2: usize, imm: i64 },
    Blt { rs1: usize, rs2: usize, imm: i64 },
    Bge { rs1: usize, rs2: usize, imm: i64 },
    Bltu { rs1: usize, rs2: usize, imm: i64 },
    Bgeu { rs1: usize, rs2: usize, imm: i64 },
    Jal { rd: usize, imm: i64 },
}

/// A register operand names one of the 32 registers.
pub open spec fn reg_ok(r: usize) -> bool {
    r < 32
}

/// A 12-bit signed immediate.
pub open spec fn imm12_ok(imm: i64) -> bool {
    -2048 <= imm < 2048
}

/// A branch offset: 13 bits, signed, even.
pub open spec fn imm_b_ok(imm: i64) -> bool {
    -4096 <= imm < 4096 && imm % 2 == 0
}

/// An upper immediate: a signed 32-bit value whose low 12 bits are zero.
pub open spec fn imm_u_ok(imm: i64) -> bool {
    -0x8000_0000 <= imm < 0x8000_0000 && imm % 4096 == 0
}

/// A jump offset: 21 bits, signed, even.
pub open spec fn imm_j_ok(imm: i64) -> bool {
    -0x10_0000 <= imm < 0x10_0000 && imm % 2 == 0
}

impl Inst {
    /// The operands fit the fields of the instruction's encoding: register indices
    /// below 32, immediates within the range and alignment of their format, shift
    /// amounts below the operand width, register numbers of the status file below
    /// 4096.
    pub open spec fn wf(self) -> bool {
        match self {
            Inst::Addi { rd, rs1, imm }
            | Inst::Slti { rd, rs1, imm }
            | Inst::Sltiu { rd, rs1, imm }
            | Inst::Xori { rd, rs1, imm }
            | Inst::Ori { rd, rs1, imm }
            | Inst::Andi { rd, rs1, imm }
            | Inst::Addiw { rd, rs1, imm }
            | Inst::Lb { rd, rs1, imm }
            | Inst::Lh { rd, rs1, imm }
            | Inst::Lw { rd, rs1, imm }
            | Inst::Lbu { rd, rs1, imm }
            | Inst::Lhu { rd, rs1, imm }
            | Inst::Lwu { rd, rs1, imm }
            | Inst::Ld { rd, rs1, imm }
            | Inst::Fence { rd, rs1, imm }
            | Inst::Fencei { rd, rs1, imm }
            | Inst::Jalr { rd, rs1, imm } => reg_ok(rd) && reg_ok(rs1) && imm12_ok(imm),
            Inst::Slli { rd, rs1, shamt }
            | Inst::Srli { rd, rs1, shamt }
            | Inst::Srai { rd, rs1, shamt } => reg_ok(rd) && reg_ok(rs1) && shamt < 64,
            Inst::Slliw { rd, rs1, shamt }
            | Inst::Srliw { rd, rs1, shamt }
            | Inst::Sraiw { rd, rs1, shamt } => reg_ok(rd) && reg_ok(rs1) && shamt < 32,
            Inst::Ebreak | Inst::Ecall | Inst::Sret | Inst::Mret | Inst::Sfencevma => true,
            Inst::Csrrw { rd, rs1, csr }
            | Inst::Csrrs { rd, rs1, csr }
            | Inst::Csrrc { rd, rs1, csr } => reg_ok(rd) && reg_ok(rs1) && csr < 4096,
            Inst::Csrrwi { rd, uimm, csr }
            | Inst::Csrrsi { rd, uimm, csr }
            | Inst::Csrrci { rd, uimm, csr } => reg_ok(rd) && uimm < 32 && csr < 4096,
            Inst::Lui { rd, imm } | Inst::Auipc { rd, imm } => reg_ok(rd) && imm_u_ok(imm),
            Inst::Sb { rs1, rs2, imm }
            | Inst::Sh { rs1, rs2, imm }
            | Inst::Sw { rs1, rs2, imm }
            | Inst::Sd { rs1, rs2, imm } => reg_ok(rs1) && reg_ok(rs2) && imm12_ok(imm),
            Inst::Add { rd, rs1, rs2 }
            | Inst::Sub { rd, rs1, rs2 }
            | Inst::Sll { rd, rs1, rs2 }
            | Inst::Slt { rd, rs1, rs2 }
            | Inst::Sltu { rd, rs1, rs2 }
            | Inst::Xor { rd, rs1, rs2 }
            | Inst::Srl { rd, rs1, rs2 }
            | Inst::Sra { rd, rs1, rs2 }
            | Inst::Or { rd, rs1, rs2 }
            | Inst::And { rd, rs1, rs2 }
            | Inst::Mul { rd, rs1, rs2 }
            | Inst::Mulh { rd, rs1, rs2 }
            | Inst::Mulhsu { rd, rs1, rs2 }
            | Inst::Mulhu { rd, rs1, rs2 }
            | Inst::Div { rd, rs1, rs2 }
            | Inst::Divu { rd, rs1, rs2 }
            | Inst::Rem { rd, rs1, rs2 }
            | Inst::Remu { rd, rs1, rs2 }
            | Inst::Addw { rd, rs1, rs2 }
            | Inst::Subw { rd, rs1, rs2 }
            | Inst::Sllw { rd, rs1, rs2 }
            | Inst::Srlw { rd, rs1, rs2 }
            | Inst::Sraw { rd, rs1, rs2 }
            | Inst::Mulw { rd, rs1, rs2 }
            | Inst::Divw { rd, rs1, rs2 }
            | Inst::Divuw { rd, rs1, rs2 }
            | Inst::Remw { rd, rs1, rs2 }
            | Inst::Remuw { rd, rs1, rs2 } => reg_ok(rd) && reg_ok(rs1) && reg_ok(rs2),
            Inst::Lrw { rd, rs1, aq, rl } | Inst::Lrd { rd, rs1, aq, rl } => reg_ok(rd) && reg_ok(
                rs1,
            ),
            Inst::Scw { rd, rs1, rs2, aq, rl }
            | Inst::Scd { rd, rs1, rs2, aq, rl }
            | Inst::Amoswapw { rd, rs1, rs2, aq, rl }
            | Inst::Amoaddw { rd, rs1, rs2, aq, rl }
            | Inst::Amoxorw { rd, rs1, rs2, aq, rl }
            | Inst::Amoandw { rd, rs1, rs2, aq, rl }
            | Inst::Amoorw { rd, rs1, rs2, aq, rl }
            | Inst::Amominw { rd, rs1, rs2, aq, rl }
            | Inst::Amomaxw { rd, rs1, rs2, aq, rl }
            | Inst::Amominuw { rd, rs1, rs2, aq, rl }
            | Inst::Amomaxuw { rd, rs1, rs2, aq, rl }
            | Inst::Amoswapd { rd, rs1, rs2, aq, rl }
            | Inst::Amoaddd { rd, rs1, rs2, aq, rl }
            | Inst::Amoxord { rd, rs1, rs2, aq, rl }
            | Inst::Amoandd { rd, rs1, rs2, aq, rl }
            | Inst::Amoord { rd, rs1, rs2, aq, rl }
            | Inst::Amomind { rd, rs1, rs2, aq, rl }
            | Inst::Amomaxd { rd, rs1, rs2, aq, rl }
            | Inst::Amominud { rd, rs1, rs2, aq, rl }
            | Inst::Amomaxud { rd, rs1, rs2, aq, rl } => reg_ok(rd) && reg_ok(rs1) && reg_ok(rs2),
            Inst::Beq { rs1, rs2, imm }
            | Inst::Bne { rs1, rs2, imm }
            | Inst::Blt { rs1, rs2, imm }
            | Inst::Bge { rs1, rs2, imm }
            | Inst::Bltu { rs1, rs2, imm }
            | Inst::Bgeu { rs1, rs2, imm } => reg_ok(rs1) && reg_ok(rs2) && imm_b_ok(imm),
            Inst::Jal { rd, imm } => reg_ok(rd) && imm_j_ok(imm),
        }
    }

    /// Arithmetic with an immediate.
    pub open spec fn is_op_imm(self) -> bool {
        match self {
            Inst::Addi { .. } | Inst::Slti { .. } | Inst::Sltiu { .. } | Inst::Xori { .. } | Inst::Ori { .. } | Inst::Andi { .. } | Inst::Addiw { .. } | Inst::Slli { .. } | Inst::Srli { .. } | Inst::Srai { .. } | Inst::Slliw { .. } | Inst::Srliw { .. } | Inst::Sraiw { .. } => true,
            _ => false,
        }
    }

    /// Loads and stores.
    pub open spec fn is_memory(self) -> bool {
        match self {
            Inst::Lb { .. } | Inst::Lh { .. } | Inst::Lw { .. } | Inst::Ld { .. } | Inst::Lbu { .. } | Inst::Lhu { .. } | Inst::Lwu { .. } | Inst::Sb { .. } | Inst::Sh { .. } | Inst::Sw { .. } | Inst::Sd { .. } => true,
            _ => false,
        }
    }

    /// Fences, environment calls, trap returns, and the status-register instructions.
    pub open spec fn is_system(self) -> bool {
        match self {
            Inst::Fence { .. } | Inst::Fencei { .. } | Inst::Sfencevma | Inst::Ebreak | Inst::Ecall | Inst::Sret | Inst::Mret | Inst::Csrrw { .. } | Inst::Csrrs { .. } | Inst::Csrrc { .. } | Inst::Csrrwi { .. } | Inst::Csrrsi { .. } | Inst::Csrrci { .. } => true,
            _ => false,
        }
    }

    /// Upper immediates, jumps and branches.
    pub open spec fn is_jump(self) -> bool {
        match self {
            Inst::Lui { .. } | Inst::Auipc { .. } | Inst::Jal { .. } | Inst::Jalr { .. } | Inst::Beq { .. } | Inst::Bne { .. } | Inst::Blt { .. } | Inst::Bge { .. } | Inst::Bltu { .. } | Inst::Bgeu { .. } => true,
            _ => false,
        }
    }

    /// Register arithmetic on the full register.
    pub open spec fn is_op(self) -> bool {
        match self {
            Inst::Add { .. } | Inst::Sub { .. } | Inst::Sll { .. } | Inst::Slt { .. } | Inst::Sltu { .. } | Inst::Xor { .. } | Inst::Srl { .. } | Inst::Sra { .. } | Inst::Or { .. } | Inst::And { .. } | Inst::Mul { .. } | Inst::Mulh { .. } | Inst::Mulhsu { .. } | Inst::Mulhu { .. } | Inst::Div { .. } | Inst::Divu { .. } | Inst::Rem { .. } | Inst::Remu { .. } => true,
            _ => false,
        }
    }

    /// Register arithmetic on the low word.
    pub open spec fn is_op_32(self) -> bool {
        match self {
            Inst::Addw { .. } | Inst::Subw { .. } | Inst::Sllw { .. } | Inst::Srlw { .. } | Inst::Sraw { .. } | Inst::Mulw { .. } | Inst::Divw { .. } | Inst::Divuw { .. } | Inst::Remw { .. } | Inst::Remuw { .. } => true,
            _ => false,
        }
    }

    /// Atomic operations on a word.
    pub open spec fn is_atomic_w(self) -> bool {
        match self {
            Inst::Lrw { .. } | Inst::Scw { .. } | Inst::Amoswapw { .. } | Inst::Amoaddw { .. } | Inst::Amoxorw { .. } | Inst::Amoandw { .. } | Inst::Amoorw { .. } | Inst::Amominw { .. } | Inst::Amomaxw { .. } | Inst::Amominuw { .. } | Inst::Amomaxuw { .. } => true,
            _ => false,
        }
    }

    /// Atomic operations on a doubleword.
    pub open spec fn is_atomic_d(self) -> bool {
        match self {
            Inst::Lrd { .. } | Inst::Scd { .. } | Inst::Amoswapd { .. } | Inst::Amoaddd { .. } | Inst::Amoxord { .. } | Inst::Amoandd { .. } | Inst::Amoord { .. } | Inst::Amomind { .. } | Inst::Amomaxd { .. } | Inst::Amominud { .. } | Inst::Amomaxud { .. } => true,
            _ => false,
        }
    }

    /// The instruction may set the program counter to something other than the
    /// address of the next instruction: a jump, a branch, or a trap return.
    pub open spec fn is_control_transfer(self) -> bool {
        match self {
            Inst::Jal { .. }
            | Inst::Jalr { .. }
            | Inst::Beq { .. }
            | Inst::Bne { .. }
            | Inst::Blt { .. }
            | Inst::Bge { .. }
            | Inst::Bltu { .. }
            | Inst::Bgeu { .. }
            | Inst::Sret
            | Inst::Mret => true,
            _ => false,
        }
    }
}

/// The six instruction formats, which fix where the operands lie in the word.
#[derive(Debug, Clone, Copy, PartialEq, Eq, Structural)]
pub enum ImmType {
    R,
    I,
    S,
    B,
    U,
    J,
}

} // verus!
