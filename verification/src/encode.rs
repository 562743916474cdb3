//! The instruction encoder, and the law that ties it to the decoder: a
//! well-formed instruction, encoded and decoded again, comes back as it was.

use vstd::prelude::*;
use crate::decode::{
    aq_of, decode_amo_d_spec, decode_amo_w_spec, decode_b_spec, decode_i_spec, decode_j_spec,
    decode_load_spec, decode_op_32_spec, decode_op_imm_32_spec, decode_op_imm_spec, decode_op_spec,
    decode_r_spec, decode_s_spec, decode_spec, decode_system_spec, decode_u_spec, field12_of,
    funct3_of, funct5_of, funct6_of, funct7_of, imm_b_of, imm_i_of, imm_j_of, imm_s_of, imm_u_of,
    lemma_decode_wf, lemma_field_ranges, opcode_of, rl_of, shamt5_of, shamt6_of, OPCODE_AMO,
    OPCODE_LOAD, OPCODE_OP, OPCODE_OP_32, OPCODE_OP_IMM, OPCODE_OP_IMM_32, OPCODE_SYSTEM,
};
use crate::exceptions::Exception;
use crate::inst::Inst;

verus! {

/// A flag as a bit.
pub open spec fn flag(b: bool) -> u32 {
    if b {
        1
    } else {
        0
    }
}

/// The word with the fields of the R format.
pub open spec fn bits_r(opcode: u32, f3: u32, f7: u32, rd: u32, rs1: u32, rs2: u32) -> u32 {
    opcode | (rd << 7) | (f3 << 12) | (rs1 << 15) | (rs2 << 20) | (f7 << 25)
}

/// The word with the fields of the I format.
pub open spec fn bits_i(opcode: u32, f3: u32, rd: u32, rs1: u32, imm: i64) -> u32 {
    opcode | (rd << 7) | (f3 << 12) | (rs1 << 15) | ((imm as u32) << 20)
}

/// The word of an immediate shift: the amount in bits 25:20, the bits that tell
/// the shifts apart in bits 31:26.
pub open spec fn bits_shift(opcode: u32, f3: u32, f6: u32, rd: u32, rs1: u32, shamt: u32) -> u32 {
    opcode | (rd << 7) | (f3 << 12) | (rs1 << 15) | (shamt << 20) | (f6 << 26)
}

/// The word of a system instruction: a 12-bit number in bits 31:20.
pub open spec fn bits_csr(f3: u32, rd: u32, rs1: u32, csr: u32) -> u32 {
    0x73u32 | (rd << 7) | (f3 << 12) | (rs1 << 15) | (csr << 20)
}

/// The word with the fields of the S format.
pub open spec fn bits_s(opcode: u32, f3: u32, rs1: u32, rs2: u32, imm: i64) -> u32 {
    opcode | (((imm as u32) & 0x1f) << 7) | (f3 << 12) | (rs1 << 15) | (rs2 << 20) | ((((imm as u32)
        >> 5) & 0x7f) << 25)
}

/// The word with the fields of the B format.
pub open spec fn bits_b(opcode: u32, f3: u32, rs1: u32, rs2: u32, imm: i64) -> u32 {
    opcode | ((((imm as u32) >> 11) & 0x1) << 7) | ((((imm as u32) >> 1) & 0xf) << 8) | (f3 << 12)
        | (rs1 << 15) | (rs2 << 20) | ((((imm as u32) >> 5) & 0x3f) << 25) | ((((imm as u32) >> 12)
        & 0x1) << 31)
}

/// The word with the fields of the U format.
pub open spec fn bits_u(opcode: u32, rd: u32, imm: i64) -> u32 {
    opcode | (rd << 7) | ((imm as u32) & 0xffff_f000)
}

/// The word with the fields of the J format.
pub open spec fn bits_j(opcode: u32, rd: u32, imm: i64) -> u32 {
    opcode | (rd << 7) | ((imm as u32) & 0xf_f000) | ((((imm as u32) >> 11) & 0x1) << 20) | ((((
    imm as u32) >> 1) & 0x3ff) << 21) | ((((imm as u32) >> 20) & 0x1) << 31)
}

/// The word of an atomic operation: the operation in bits 31:27, the acquire
/// and release flags in bits 26 and 25.
pub open spec fn bits_amo(f3: u32, f5: u32, aq: u32, rl: u32, rd: u32, rs1: u32, rs2: u32) -> u32 {
    0x2fu32 | (rd << 7) | (f3 << 12) | (rs1 << 15) | (rs2 << 20) | (rl << 25) | (aq << 26) | (f5
        << 27)
}

pub open spec fn enc_r(opcode: u32, f3: u32, f7: u32, rd: usize, rs1: usize, rs2: usize) -> u32 {
    bits_r(opcode, f3, f7, rd as u32, rs1 as u32, rs2 as u32)
}

pub open spec fn enc_i(opcode: u32, f3: u32, rd: usize, rs1: usize, imm: i64) -> u32 {
    bits_i(opcode, f3, rd as u32, rs1 as u32, imm)
}

pub open spec fn enc_shift(opcode: u32, f3: u32, f6: u32, rd: usize, rs1: usize, shamt: u32)
    -> u32 {
    bits_shift(opcode, f3, f6, rd as u32, rs1 as u32, shamt)
}

pub open spec fn enc_csr(f3: u32, rd: usize, rs1: usize, csr: usize) -> u32 {
    bits_csr(f3, rd as u32, rs1 as u32, csr as u32)
}

pub open spec fn enc_s(opcode: u32, f3: u32, rs1: usize, rs2: usize, imm: i64) -> u32 {
    bits_s(opcode, f3, rs1 as u32, rs2 as u32, imm)
}

pub open spec fn enc_b(opcode: u32, f3: u32, rs1: usize, rs2: usize, imm: i64) -> u32 {
    bits_b(opcode, f3, rs1 as u32, rs2 as u32, imm)
}

pub open spec fn enc_u(opcode: u32, rd: usize, imm: i64) -> u32 {
    bits_u(opcode, rd as u32, imm)
}

pub open spec fn enc_j(opcode: u32, rd: usize, imm: i64) -> u32 {
    bits_j(opcode, rd as u32, imm)
}

pub open spec fn enc_amo(f3: u32, f5: u32, aq: bool, rl: bool, rd: usize, rs1: usize, rs2: usize)
    -> u32 {
    bits_amo(f3, f5, flag(aq), flag(rl), rd as u32, rs1 as u32, rs2 as u32)
}

fn pack_r(opcode: u32, f3: u32, f7: u32, rd: usize, rs1: usize, rs2: usize) -> (w: u32)
    ensures
        w == enc_r(opcode, f3, f7, rd, rs1, rs2),
{
    opcode | (reg_bits(rd) << 7) | (f3 << 12) | (reg_bits(rs1) << 15) | (reg_bits(rs2) << 20) | (f7
        << 25)
}

fn pack_i(opcode: u32, f3: u32, rd: usize, rs1: usize, imm: i64) -> (w: u32)
    ensures
        w == enc_i(opcode, f3, rd, rs1, imm),
{
    opcode | (reg_bits(rd) << 7) | (f3 << 12) | (reg_bits(rs1) << 15) | (imm_bits32(imm) << 20)
}

fn pack_shift(opcode: u32, f3: u32, f6: u32, rd: usize, rs1: usize, shamt: u32) -> (w: u32)
    ensures
        w == enc_shift(opcode, f3, f6, rd, rs1, shamt),
{
    opcode | (reg_bits(rd) << 7) | (f3 << 12) | (reg_bits(rs1) << 15) | (shamt << 20) | (f6 << 26)
}

fn pack_csr(f3: u32, rd: usize, rs1: usize, csr: usize) -> (w: u32)
    ensures
        w == enc_csr(f3, rd, rs1, csr),
{
    0x73u32 | (reg_bits(rd) << 7) | (f3 << 12) | (reg_bits(rs1) << 15) | (reg_bits(csr) << 20)
}

fn pack_s(opcode: u32, f3: u32, rs1: usize, rs2: usize, imm: i64) -> (w: u32)
    ensures
        w == enc_s(opcode, f3, rs1, rs2, imm),
{
    let v = imm_bits32(imm);
    opcode | ((v & 0x1f) << 7) | (f3 << 12) | (reg_bits(rs1) << 15) | (reg_bits(rs2) << 20) | (((v
        >> 5) & 0x7f) << 25)
}

fn pack_b(opcode: u32, f3: u32, rs1: usize, rs2: usize, imm: i64) -> (w: u32)
    ensures
        w == enc_b(opcode, f3, rs1, rs2, imm),
{
    let v = imm_bits32(imm);
    opcode | (((v >> 11) & 0x1) << 7) | (((v >> 1) & 0xf) << 8) | (f3 << 12) | (reg_bits(rs1) << 15)
        | (reg_bits(rs2) << 20) | (((v >> 5) & 0x3f) << 25) | (((v >> 12) & 0x1) << 31)
}

fn pack_u(opcode: u32, rd: usize, imm: i64) -> (w: u32)
    ensures
        w == enc_u(opcode, rd, imm),
{
    opcode | (reg_bits(rd) << 7) | (imm_bits32(imm) & 0xffff_f000)
}

fn pack_j(opcode: u32, rd: usize, imm: i64) -> (w: u32)
    ensures
        w == enc_j(opcode, rd, imm),
{
    let v = imm_bits32(imm);
    opcode | (reg_bits(rd) << 7) | (v & 0xf_f000) | (((v >> 11) & 0x1) << 20) | (((v >> 1) & 0x3ff)
        << 21) | (((v >> 20) & 0x1) << 31)
}

fn pack_amo(f3: u32, f5: u32, aq: bool, rl: bool, rd: usize, rs1: usize, rs2: usize) -> (w: u32)
    ensures
        w == enc_amo(f3, f5, aq, rl, rd, rs1, rs2),
{
    let a: u32 = if aq {
        1
    } else {
        0
    };
    let r: u32 = if rl {
        1
    } else {
        0
    };
    0x2fu32 | (reg_bits(rd) << 7) | (f3 << 12) | (reg_bits(rs1) << 15) | (reg_bits(rs2) << 20) | (r
        << 25) | (a << 26) | (f5 << 27)
}

/// The low 32 bits of a register index.
fn reg_bits(r: usize) -> (v: u32)
    ensures
        v == r as u32,
{
    #[verifier::truncate]
    (r as u32)
}

/// The low 32 bits of an immediate.
fn imm_bits32(imm: i64) -> (v: u32)
    ensures
        v == imm as u32,
{
    #[verifier::truncate]
    (imm as u32)
}

impl Inst {
    /// The word that encodes the instruction.
    pub open spec fn encode_spec(self) -> u32 {
        match self {
            Inst::Addi { rd, rs1, imm } => enc_i(0x13, 0, rd, rs1, imm),
            Inst::Slti { rd, rs1, imm } => enc_i(0x13, 2, rd, rs1, imm),
            Inst::Sltiu { rd, rs1, imm } => enc_i(0x13, 3, rd, rs1, imm),
            Inst::Xori { rd, rs1, imm } => enc_i(0x13, 4, rd, rs1, imm),
            Inst::Ori { rd, rs1, imm } => enc_i(0x13, 6, rd, rs1, imm),
            Inst::Andi { rd, rs1, imm } => enc_i(0x13, 7, rd, rs1, imm),
            Inst::Addiw { rd, rs1, imm } => enc_i(0x1b, 0, rd, rs1, imm),
            Inst::Slli { rd, rs1, shamt } => enc_shift(0x13, 1, 0x0, rd, rs1, shamt),
            Inst::Srli { rd, rs1, shamt } => enc_shift(0x13, 5, 0x0, rd, rs1, shamt),
            Inst::Srai { rd, rs1, shamt } => enc_shift(0x13, 5, 0x10, rd, rs1, shamt),
            Inst::Slliw { rd, rs1, shamt } => enc_shift(0x1b, 1, 0x0, rd, rs1, shamt),
            Inst::Srliw { rd, rs1, shamt } => enc_shift(0x1b, 5, 0x0, rd, rs1, shamt),
            Inst::Sraiw { rd, rs1, shamt } => enc_shift(0x1b, 5, 0x10, rd, rs1, shamt),
            Inst::Lb { rd, rs1, imm } => enc_i(0x3, 0, rd, rs1, imm),
            Inst::Lh { rd, rs1, imm } => enc_i(0x3, 1, rd, rs1, imm),
            Inst::Lw { rd, rs1, imm } => enc_i(0x3, 2, rd, rs1, imm),
            Inst::Ld { rd, rs1, imm } => enc_i(0x3, 3, rd, rs1, imm),
            Inst::Lbu { rd, rs1, imm } => enc_i(0x3, 4, rd, rs1, imm),
            Inst::Lhu { rd, rs1, imm } => enc_i(0x3, 5, rd, rs1, imm),
            Inst::Lwu { rd, rs1, imm } => enc_i(0x3, 6, rd, rs1, imm),
            Inst::Sb { rs1, rs2, imm } => enc_s(0x23, 0, rs1, rs2, imm),
            Inst::Sh { rs1, rs2, imm } => enc_s(0x23, 1, rs1, rs2, imm),
            Inst::Sw { rs1, rs2, imm } => enc_s(0x23, 2, rs1, rs2, imm),
            Inst::Sd { rs1, rs2, imm } => enc_s(0x23, 3, rs1, rs2, imm),
            Inst::Fence { rd, rs1, imm } => enc_i(0xf, 0, rd, rs1, imm),
            Inst::Fencei { rd, rs1, imm } => enc_i(0xf, 1, rd, rs1, imm),
            Inst::Ecall => enc_csr(0, 0, 0, 0x0),
            Inst::Ebreak => enc_csr(0, 0, 0, 0x1),
            Inst::Sret => enc_csr(0, 0, 0, 0x102),
            Inst::Mret => enc_csr(0, 0, 0, 0x302),
            Inst::Sfencevma => enc_r(0x73, 0, 0x09, 0, 0, 0),
            Inst::Csrrw { rd, rs1, csr } => enc_csr(1, rd, rs1, csr),
            Inst::Csrrs { rd, rs1, csr } => enc_csr(2, rd, rs1, csr),
            Inst::Csrrc { rd, rs1, csr } => enc_csr(3, rd, rs1, csr),
            Inst::Csrrwi { rd, uimm, csr } => enc_csr(5, rd, uimm as usize, csr),
            Inst::Csrrsi { rd, uimm, csr } => enc_csr(6, rd, uimm as usize, csr),
            Inst::Csrrci { rd, uimm, csr } => enc_csr(7, rd, uimm as usize, csr),
            Inst::Jalr { rd, rs1, imm } => enc_i(0x67, 0, rd, rs1, imm),
            Inst::Lui { rd, imm } => enc_u(0x37, rd, imm),
            Inst::Auipc { rd, imm } => enc_u(0x17, rd, imm),
            Inst::Beq { rs1, rs2, imm } => enc_b(0x63, 0, rs1, rs2, imm),
            Inst::Bne { rs1, rs2, imm } => enc_b(0x63, 1, rs1, rs2, imm),
            Inst::Blt { rs1, rs2, imm } => enc_b(0x63, 4, rs1, rs2, imm),
            Inst::Bge { rs1, rs2, imm } => enc_b(0x63, 5, rs1, rs2, imm),
            Inst::Bltu { rs1, rs2, imm } => enc_b(0x63, 6, rs1, rs2, imm),
            Inst::Bgeu { rs1, rs2, imm } => enc_b(0x63, 7, rs1, rs2, imm),
            Inst::Jal { rd, imm } => enc_j(0x6f, rd, imm),
            Inst::Add { rd, rs1, rs2 } => enc_r(0x33, 0, 0x0, rd, rs1, rs2),
            Inst::Sub { rd, rs1, rs2 } => enc_r(0x33, 0, 0x20, rd, rs1, rs2),
            Inst::Sll { rd, rs1, rs2 } => enc_r(0x33, 1, 0x0, rd, rs1, rs2),
            Inst::Slt { rd, rs1, rs2 } => enc_r(0x33, 2, 0x0, rd, rs1, rs2),
            Inst::Sltu { rd, rs1, rs2 } => enc_r(0x33, 3, 0x0, rd, rs1, rs2),
            Inst::Xor { rd, rs1, rs2 } => enc_r(0x33, 4, 0x0, rd, rs1, rs2),
            Inst::Srl { rd, rs1, rs2 } => enc_r(0x33, 5, 0x0, rd, rs1, rs2),
            Inst::Sra { rd, rs1, rs2 } => enc_r(0x33, 5, 0x20, rd, rs1, rs2),
            Inst::Or { rd, rs1, rs2 } => enc_r(0x33, 6, 0x0, rd, rs1, rs2),
            Inst::And { rd, rs1, rs2 } => enc_r(0x33, 7, 0x0, rd, rs1, rs2),
            Inst::Mul { rd, rs1, rs2 } => enc_r(0x33, 0, 0x1, rd, rs1, rs2),
            Inst::Mulh { rd, rs1, rs2 } => enc_r(0x33, 1, 0x1, rd, rs1, rs2),
            Inst::Mulhsu { rd, rs1, rs2 } => enc_r(0x33, 2, 0x1, rd, rs1, rs2),
            Inst::Mulhu { rd, rs1, rs2 } => enc_r(0x33, 3, 0x1, rd, rs1, rs2),
            Inst::Div { rd, rs1, rs2 } => enc_r(0x33, 4, 0x1, rd, rs1, rs2),
            Inst::Divu { rd, rs1, rs2 } => enc_r(0x33, 5, 0x1, rd, rs1, rs2),
            Inst::Rem { rd, rs1, rs2 } => enc_r(0x33, 6, 0x1, rd, rs1, rs2),
            Inst::Remu { rd, rs1, rs2 } => enc_r(0x33, 7, 0x1, rd, rs1, rs2),
            Inst::Addw { rd, rs1, rs2 } => enc_r(0x3b, 0, 0x0, rd, rs1, rs2),
            Inst::Subw { rd, rs1, rs2 } => enc_r(0x3b, 0, 0x20, rd, rs1, rs2),
            Inst::Sllw { rd, rs1, rs2 } => enc_r(0x3b, 1, 0x0, rd, rs1, rs2),
            Inst::Srlw { rd, rs1, rs2 } => enc_r(0x3b, 5, 0x0, rd, rs1, rs2),
            Inst::Sraw { rd, rs1, rs2 } => enc_r(0x3b, 5, 0x20, rd, rs1, rs2),
            Inst::Mulw { rd, rs1, rs2 } => enc_r(0x3b, 0, 0x1, rd, rs1, rs2),
            Inst::Divw { rd, rs1, rs2 } => enc_r(0x3b, 4, 0x1, rd, rs1, rs2),
            Inst::Divuw { rd, rs1, rs2 } => enc_r(0x3b, 5, 0x1, rd, rs1, rs2),
            Inst::Remw { rd, rs1, rs2 } => enc_r(0x3b, 6, 0x1, rd, rs1, rs2),
            Inst::Remuw { rd, rs1, rs2 } => enc_r(0x3b, 7, 0x1, rd, rs1, rs2),
            Inst::Lrw { rd, rs1, aq, rl } => enc_amo(2, 0x02, aq, rl, rd, rs1, 0),
            Inst::Scw { rd, rs1, rs2, aq, rl } => enc_amo(2, 0x03, aq, rl, rd, rs1, rs2),
            Inst::Amoswapw { rd, rs1, rs2, aq, rl } => enc_amo(2, 0x1, aq, rl, rd, rs1, rs2),
            Inst::Amoaddw { rd, rs1, rs2, aq, rl } => enc_amo(2, 0x0, aq, rl, rd, rs1, rs2),
            Inst::Amoxorw { rd, rs1, rs2, aq, rl } => enc_amo(2, 0x4, aq, rl, rd, rs1, rs2),
            Inst::Amoandw { rd, rs1, rs2, aq, rl } => enc_amo(2, 0xc, aq, rl, rd, rs1, rs2),
            Inst::Amoorw { rd, rs1, rs2, aq, rl } => enc_amo(2, 0x8, aq, rl, rd, rs1, rs2),
            Inst::Amominw { rd, rs1, rs2, aq, rl } => enc_amo(2, 0x10, aq, rl, rd, rs1, rs2),
            Inst::Amomaxw { rd, rs1, rs2, aq, rl } => enc_amo(2, 0x14, aq, rl, rd, rs1, rs2),
            Inst::Amominuw { rd, rs1, rs2, aq, rl } => enc_amo(2, 0x18, aq, rl, rd, rs1, rs2),
            Inst::Amomaxuw { rd, rs1, rs2, aq, rl } => enc_amo(2, 0x1c, aq, rl, rd, rs1, rs2),
            Inst::Lrd { rd, rs1, aq, rl } => enc_amo(3, 0x02, aq, rl, rd, rs1, 0),
            Inst::Scd { rd, rs1, rs2, aq, rl } => enc_amo(3, 0x03, aq, rl, rd, rs1, rs2),
            Inst::Amoswapd { rd, rs1, rs2, aq, rl } => enc_amo(3, 0x1, aq, rl, rd, rs1, rs2),
            Inst::Amoaddd { rd, rs1, rs2, aq, rl } => enc_amo(3, 0x0, aq, rl, rd, rs1, rs2),
            Inst::Amoxord { rd, rs1, rs2, aq, rl } => enc_amo(3, 0x4, aq, rl, rd, rs1, rs2),
            Inst::Amoandd { rd, rs1, rs2, aq, rl } => enc_amo(3, 0xc, aq, rl, rd, rs1, rs2),
            Inst::Amoord { rd, rs1, rs2, aq, rl } => enc_amo(3, 0x8, aq, rl, rd, rs1, rs2),
            Inst::Amomind { rd, rs1, rs2, aq, rl } => enc_amo(3, 0x10, aq, rl, rd, rs1, rs2),
            Inst::Amomaxd { rd, rs1, rs2, aq, rl } => enc_amo(3, 0x14, aq, rl, rd, rs1, rs2),
            Inst::Amominud { rd, rs1, rs2, aq, rl } => enc_amo(3, 0x18, aq, rl, rd, rs1, rs2),
            Inst::Amomaxud { rd, rs1, rs2, aq, rl } => enc_amo(3, 0x1c, aq, rl, rd, rs1, rs2),
        }
    }

    /// Encodes the instruction.
    ///
    /// For a well-formed instruction the word decodes to the instruction again.
    pub fn encode(&self) -> (w: u32)
        ensures
            w == self.encode_spec(),
            self.wf() ==> decode_spec(w) == Ok::<Inst, Exception>(*self),
    {
        proof {
            if self.wf() {
                lemma_decode_encode(*self);
            }
        }
        match *self {
            Inst::Addi { rd, rs1, imm } => pack_i(0x13, 0, rd, rs1, imm),
            Inst::Slti { rd, rs1, imm } => pack_i(0x13, 2, rd, rs1, imm),
            Inst::Sltiu { rd, rs1, imm } => pack_i(0x13, 3, rd, rs1, imm),
            Inst::Xori { rd, rs1, imm } => pack_i(0x13, 4, rd, rs1, imm),
            Inst::Ori { rd, rs1, imm } => pack_i(0x13, 6, rd, rs1, imm),
            Inst::Andi { rd, rs1, imm } => pack_i(0x13, 7, rd, rs1, imm),
            Inst::Addiw { rd, rs1, imm } => pack_i(0x1b, 0, rd, rs1, imm),
            Inst::Slli { rd, rs1, shamt } => pack_shift(0x13, 1, 0x0, rd, rs1, shamt),
            Inst::Srli { rd, rs1, shamt } => pack_shift(0x13, 5, 0x0, rd, rs1, shamt),
            Inst::Srai { rd, rs1, shamt } => pack_shift(0x13, 5, 0x10, rd, rs1, shamt),
            Inst::Slliw { rd, rs1, shamt } => pack_shift(0x1b, 1, 0x0, rd, rs1, shamt),
            Inst::Srliw { rd, rs1, shamt } => pack_shift(0x1b, 5, 0x0, rd, rs1, shamt),
            Inst::Sraiw { rd, rs1, shamt } => pack_shift(0x1b, 5, 0x10, rd, rs1, shamt),
            Inst::Lb { rd, rs1, imm } => pack_i(0x3, 0, rd, rs1, imm),
            Inst::Lh { rd, rs1, imm } => pack_i(0x3, 1, rd, rs1, imm),
            Inst::Lw { rd, rs1, imm } => pack_i(0x3, 2, rd, rs1, imm),
            Inst::Ld { rd, rs1, imm } => pack_i(0x3, 3, rd, rs1, imm),
            Inst::Lbu { rd, rs1, imm } => pack_i(0x3, 4, rd, rs1, imm),
            Inst::Lhu { rd, rs1, imm } => pack_i(0x3, 5, rd, rs1, imm),
            Inst::Lwu { rd, rs1, imm } => pack_i(0x3, 6, rd, rs1, imm),
            Inst::Sb { rs1, rs2, imm } => pack_s(0x23, 0, rs1, rs2, imm),
            Inst::Sh { rs1, rs2, imm } => pack_s(0x23, 1, rs1, rs2, imm),
            Inst::Sw { rs1, rs2, imm } => pack_s(0x23, 2, rs1, rs2, imm),
            Inst::Sd { rs1, rs2, imm } => pack_s(0x23, 3, rs1, rs2, imm),
            Inst::Fence { rd, rs1, imm } => pack_i(0xf, 0, rd, rs1, imm),
            Inst::Fencei { rd, rs1, imm } => pack_i(0xf, 1, rd, rs1, imm),
            Inst::Ecall => pack_csr(0, 0, 0, 0x0),
            Inst::Ebreak => pack_csr(0, 0, 0, 0x1),
            Inst::Sret => pack_csr(0, 0, 0, 0x102),
            Inst::Mret => pack_csr(0, 0, 0, 0x302),
            Inst::Sfencevma => pack_r(0x73, 0, 0x09, 0, 0, 0),
            Inst::Csrrw { rd, rs1, csr } => pack_csr(1, rd, rs1, csr),
            Inst::Csrrs { rd, rs1, csr } => pack_csr(2, rd, rs1, csr),
            Inst::Csrrc { rd, rs1, csr } => pack_csr(3, rd, rs1, csr),
            Inst::Csrrwi { rd, uimm, csr } => pack_csr(5, rd, uimm as usize, csr),
            Inst::Csrrsi { rd, uimm, csr } => pack_csr(6, rd, uimm as usize, csr),
            Inst::Csrrci { rd, uimm, csr } => pack_csr(7, rd, uimm as usize, csr),
            Inst::Jalr { rd, rs1, imm } => pack_i(0x67, 0, rd, rs1, imm),
            Inst::Lui { rd, imm } => pack_u(0x37, rd, imm),
            Inst::Auipc { rd, imm } => pack_u(0x17, rd, imm),
            Inst::Beq { rs1, rs2, imm } => pack_b(0x63, 0, rs1, rs2, imm),
            Inst::Bne { rs1, rs2, imm } => pack_b(0x63, 1, rs1, rs2, imm),
            Inst::Blt { rs1, rs2, imm } => pack_b(0x63, 4, rs1, rs2, imm),
            Inst::Bge { rs1, rs2, imm } => pack_b(0x63, 5, rs1, rs2, imm),
            Inst::Bltu { rs1, rs2, imm } => pack_b(0x63, 6, rs1, rs2, imm),
            Inst::Bgeu { rs1, rs2, imm } => pack_b(0x63, 7, rs1, rs2, imm),
            Inst::Jal { rd, imm } => pack_j(0x6f, rd, imm),
            Inst::Add { rd, rs1, rs2 } => pack_r(0x33, 0, 0x0, rd, rs1, rs2),
            Inst::Sub { rd, rs1, rs2 } => pack_r(0x33, 0, 0x20, rd, rs1, rs2),
            Inst::Sll { rd, rs1, rs2 } => pack_r(0x33, 1, 0x0, rd, rs1, rs2),
            Inst::Slt { rd, rs1, rs2 } => pack_r(0x33, 2, 0x0, rd, rs1, rs2),
            Inst::Sltu { rd, rs1, rs2 } => pack_r(0x33, 3, 0x0, rd, rs1, rs2),
            Inst::Xor { rd, rs1, rs2 } => pack_r(0x33, 4, 0x0, rd, rs1, rs2),
            Inst::Srl { rd, rs1, rs2 } => pack_r(0x33, 5, 0x0, rd, rs1, rs2),
            Inst::Sra { rd, rs1, rs2 } => pack_r(0x33, 5, 0x20, rd, rs1, rs2),
            Inst::Or { rd, rs1, rs2 } => pack_r(0x33, 6, 0x0, rd, rs1, rs2),
            Inst::And { rd, rs1, rs2 } => pack_r(0x33, 7, 0x0, rd, rs1, rs2),
            Inst::Mul { rd, rs1, rs2 } => pack_r(0x33, 0, 0x1, rd, rs1, rs2),
            Inst::Mulh { rd, rs1, rs2 } => pack_r(0x33, 1, 0x1, rd, rs1, rs2),
            Inst::Mulhsu { rd, rs1, rs2 } => pack_r(0x33, 2, 0x1, rd, rs1, rs2),
            Inst::Mulhu { rd, rs1, rs2 } => pack_r(0x33, 3, 0x1, rd, rs1, rs2),
            Inst::Div { rd, rs1, rs2 } => pack_r(0x33, 4, 0x1, rd, rs1, rs2),
            Inst::Divu { rd, rs1, rs2 } => pack_r(0x33, 5, 0x1, rd, rs1, rs2),
            Inst::Rem { rd, rs1, rs2 } => pack_r(0x33, 6, 0x1, rd, rs1, rs2),
            Inst::Remu { rd, rs1, rs2 } => pack_r(0x33, 7, 0x1, rd, rs1, rs2),
            Inst::Addw { rd, rs1, rs2 } => pack_r(0x3b, 0, 0x0, rd, rs1, rs2),
            Inst::Subw { rd, rs1, rs2 } => pack_r(0x3b, 0, 0x20, rd, rs1, rs2),
            Inst::Sllw { rd, rs1, rs2 } => pack_r(0x3b, 1, 0x0, rd, rs1, rs2),
            Inst::Srlw { rd, rs1, rs2 } => pack_r(0x3b, 5, 0x0, rd, rs1, rs2),
            Inst::Sraw { rd, rs1, rs2 } => pack_r(0x3b, 5, 0x20, rd, rs1, rs2),
            Inst::Mulw { rd, rs1, rs2 } => pack_r(0x3b, 0, 0x1, rd, rs1, rs2),
            Inst::Divw { rd, rs1, rs2 } => pack_r(0x3b, 4, 0x1, rd, rs1, rs2),
            Inst::Divuw { rd, rs1, rs2 } => pack_r(0x3b, 5, 0x1, rd, rs1, rs2),
            Inst::Remw { rd, rs1, rs2 } => pack_r(0x3b, 6, 0x1, rd, rs1, rs2),
            Inst::Remuw { rd, rs1, rs2 } => pack_r(0x3b, 7, 0x1, rd, rs1, rs2),
            Inst::Lrw { rd, rs1, aq, rl } => pack_amo(2, 0x02, aq, rl, rd, rs1, 0),
            Inst::Scw { rd, rs1, rs2, aq, rl } => pack_amo(2, 0x03, aq, rl, rd, rs1, rs2),
            Inst::Amoswapw { rd, rs1, rs2, aq, rl } => pack_amo(2, 0x1, aq, rl, rd, rs1, rs2),
            Inst::Amoaddw { rd, rs1, rs2, aq, rl } => pack_amo(2, 0x0, aq, rl, rd, rs1, rs2),
            Inst::Amoxorw { rd, rs1, rs2, aq, rl } => pack_amo(2, 0x4, aq, rl, rd, rs1, rs2),
            Inst::Amoandw { rd, rs1, rs2, aq, rl } => pack_amo(2, 0xc, aq, rl, rd, rs1, rs2),
            Inst::Amoorw { rd, rs1, rs2, aq, rl } => pack_amo(2, 0x8, aq, rl, rd, rs1, rs2),
            Inst::Amominw { rd, rs1, rs2, aq, rl } => pack_amo(2, 0x10, aq, rl, rd, rs1, rs2),
            Inst::Amomaxw { rd, rs1, rs2, aq, rl } => pack_amo(2, 0x14, aq, rl, rd, rs1, rs2),
            Inst::Amominuw { rd, rs1, rs2, aq, rl } => pack_amo(2, 0x18, aq, rl, rd, rs1, rs2),
            Inst::Amomaxuw { rd, rs1, rs2, aq, rl } => pack_amo(2, 0x1c, aq, rl, rd, rs1, rs2),
            Inst::Lrd { rd, rs1, aq, rl } => pack_amo(3, 0x02, aq, rl, rd, rs1, 0),
            Inst::Scd { rd, rs1, rs2, aq, rl } => pack_amo(3, 0x03, aq, rl, rd, rs1, rs2),
            Inst::Amoswapd { rd, rs1, rs2, aq, rl } => pack_amo(3, 0x1, aq, rl, rd, rs1, rs2),
            Inst::Amoaddd { rd, rs1, rs2, aq, rl } => pack_amo(3, 0x0, aq, rl, rd, rs1, rs2),
            Inst::Amoxord { rd, rs1, rs2, aq, rl } => pack_amo(3, 0x4, aq, rl, rd, rs1, rs2),
            Inst::Amoandd { rd, rs1, rs2, aq, rl } => pack_amo(3, 0xc, aq, rl, rd, rs1, rs2),
            Inst::Amoord { rd, rs1, rs2, aq, rl } => pack_amo(3, 0x8, aq, rl, rd, rs1, rs2),
            Inst::Amomind { rd, rs1, rs2, aq, rl } => pack_amo(3, 0x10, aq, rl, rd, rs1, rs2),
            Inst::Amomaxd { rd, rs1, rs2, aq, rl } => pack_amo(3, 0x14, aq, rl, rd, rs1, rs2),
            Inst::Amominud { rd, rs1, rs2, aq, rl } => pack_amo(3, 0x18, aq, rl, rd, rs1, rs2),
            Inst::Amomaxud { rd, rs1, rs2, aq, rl } => pack_amo(3, 0x1c, aq, rl, rd, rs1, rs2),
        }
    }
}

proof fn lemma_pack_r(opcode: u32, f3: u32, f7: u32, rd: u32, rs1: u32, rs2: u32)
    by (bit_vector)
    requires
        opcode < 128,
        f3 < 8,
        f7 < 128,
        rd < 32,
        rs1 < 32,
        rs2 < 32,
    ensures
        opcode_of(bits_r(opcode, f3, f7, rd, rs1, rs2)) == opcode,
        (bits_r(opcode, f3, f7, rd, rs1, rs2) >> 7) & 0x1f == rd,
        funct3_of(bits_r(opcode, f3, f7, rd, rs1, rs2)) == f3,
        (bits_r(opcode, f3, f7, rd, rs1, rs2) >> 15) & 0x1f == rs1,
        (bits_r(opcode, f3, f7, rd, rs1, rs2) >> 20) & 0x1f == rs2,
        funct7_of(bits_r(opcode, f3, f7, rd, rs1, rs2)) == f7,
        field12_of(bits_r(opcode, f3, f7, rd, rs1, rs2)) == (f7 << 5) | rs2,
        ((f7 << 5) | rs2) >> 5 == f7,
{
}

proof fn lemma_pack_i(opcode: u32, f3: u32, rd: u32, rs1: u32, imm: i64)
    by (bit_vector)
    requires
        opcode < 128,
        f3 < 8,
        rd < 32,
        rs1 < 32,
        -2048 <= imm < 2048,
    ensures
        opcode_of(bits_i(opcode, f3, rd, rs1, imm)) == opcode,
        (bits_i(opcode, f3, rd, rs1, imm) >> 7) & 0x1f == rd,
        funct3_of(bits_i(opcode, f3, rd, rs1, imm)) == f3,
        (bits_i(opcode, f3, rd, rs1, imm) >> 15) & 0x1f == rs1,
        imm_i_of(bits_i(opcode, f3, rd, rs1, imm)) == imm,
{
}

proof fn lemma_pack_shift(opcode: u32, f3: u32, f6: u32, rd: u32, rs1: u32, shamt: u32)
    by (bit_vector)
    requires
        opcode < 128,
        f3 < 8,
        f6 < 64,
        rd < 32,
        rs1 < 32,
        shamt < 64,
    ensures
        opcode_of(bits_shift(opcode, f3, f6, rd, rs1, shamt)) == opcode,
        (bits_shift(opcode, f3, f6, rd, rs1, shamt) >> 7) & 0x1f == rd,
        funct3_of(bits_shift(opcode, f3, f6, rd, rs1, shamt)) == f3,
        (bits_shift(opcode, f3, f6, rd, rs1, shamt) >> 15) & 0x1f == rs1,
        shamt6_of(bits_shift(opcode, f3, f6, rd, rs1, shamt)) == shamt,
        funct6_of(bits_shift(opcode, f3, f6, rd, rs1, shamt)) == f6,
        shamt < 32 ==> shamt5_of(bits_shift(opcode, f3, f6, rd, rs1, shamt)) == shamt,
        shamt < 32 ==> funct7_of(bits_shift(opcode, f3, f6, rd, rs1, shamt)) == f6 << 1,
        0x10u32 << 1 == 0x20u32,
        0x00u32 << 1 == 0x00u32,
{
}

proof fn lemma_pack_csr(f3: u32, rd: u32, rs1: u32, csr: u32)
    by (bit_vector)
    requires
        f3 < 8,
        rd < 32,
        rs1 < 32,
        csr < 4096,
    ensures
        opcode_of(bits_csr(f3, rd, rs1, csr)) == 0x73,
        (bits_csr(f3, rd, rs1, csr) >> 7) & 0x1f == rd,
        funct3_of(bits_csr(f3, rd, rs1, csr)) == f3,
        (bits_csr(f3, rd, rs1, csr) >> 15) & 0x1f == rs1,
        field12_of(bits_csr(f3, rd, rs1, csr)) == csr,
        funct7_of(bits_csr(f3, rd, rs1, csr)) == csr >> 5,
{
}

proof fn lemma_pack_s(opcode: u32, f3: u32, rs1: u32, rs2: u32, imm: i64)
    by (bit_vector)
    requires
        opcode < 128,
        f3 < 8,
        rs1 < 32,
        rs2 < 32,
        -2048 <= imm < 2048,
    ensures
        opcode_of(bits_s(opcode, f3, rs1, rs2, imm)) == opcode,
        funct3_of(bits_s(opcode, f3, rs1, rs2, imm)) == f3,
        (bits_s(opcode, f3, rs1, rs2, imm) >> 15) & 0x1f == rs1,
        (bits_s(opcode, f3, rs1, rs2, imm) >> 20) & 0x1f == rs2,
        imm_s_of(bits_s(opcode, f3, rs1, rs2, imm)) == imm,
{
}

proof fn lemma_pack_b(opcode: u32, f3: u32, rs1: u32, rs2: u32, imm: i64)
    by (bit_vector)
    requires
        opcode < 128,
        f3 < 8,
        rs1 < 32,
        rs2 < 32,
        -4096 <= imm < 4096,
        imm % 2 == 0,
    ensures
        opcode_of(bits_b(opcode, f3, rs1, rs2, imm)) == opcode,
        funct3_of(bits_b(opcode, f3, rs1, rs2, imm)) == f3,
        (bits_b(opcode, f3, rs1, rs2, imm) >> 15) & 0x1f == rs1,
        (bits_b(opcode, f3, rs1, rs2, imm) >> 20) & 0x1f == rs2,
        imm_b_of(bits_b(opcode, f3, rs1, rs2, imm)) == imm,
{
}

proof fn lemma_pack_u(opcode: u32, rd: u32, imm: i64)
    by (bit_vector)
    requires
        opcode < 128,
        rd < 32,
        -0x8000_0000 <= imm < 0x8000_0000,
        imm % 4096 == 0,
    ensures
        opcode_of(bits_u(opcode, rd, imm)) == opcode,
        (bits_u(opcode, rd, imm) >> 7) & 0x1f == rd,
        imm_u_of(bits_u(opcode, rd, imm)) == imm,
{
}

proof fn lemma_pack_j(opcode: u32, rd: u32, imm: i64)
    by (bit_vector)
    requires
        opcode < 128,
        rd < 32,
        -0x10_0000 <= imm < 0x10_0000,
        imm % 2 == 0,
    ensures
        opcode_of(bits_j(opcode, rd, imm)) == opcode,
        (bits_j(opcode, rd, imm) >> 7) & 0x1f == rd,
        imm_j_of(bits_j(opcode, rd, imm)) == imm,
{
}

proof fn lemma_pack_amo(f3: u32, f5: u32, aq: u32, rl: u32, rd: u32, rs1: u32, rs2: u32)
    by (bit_vector)
    requires
        f3 < 8,
        f5 < 32,
        aq < 2,
        rl < 2,
        rd < 32,
        rs1 < 32,
        rs2 < 32,
    ensures
        opcode_of(bits_amo(f3, f5, aq, rl, rd, rs1, rs2)) == 0x2f,
        (bits_amo(f3, f5, aq, rl, rd, rs1, rs2) >> 7) & 0x1f == rd,
        funct3_of(bits_amo(f3, f5, aq, rl, rd, rs1, rs2)) == f3,
        (bits_amo(f3, f5, aq, rl, rd, rs1, rs2) >> 15) & 0x1f == rs1,
        (bits_amo(f3, f5, aq, rl, rd, rs1, rs2) >> 20) & 0x1f == rs2,
        funct5_of(bits_amo(f3, f5, aq, rl, rd, rs1, rs2)) == f5,
        aq_of(bits_amo(f3, f5, aq, rl, rd, rs1, rs2)) == (aq == 1),
        rl_of(bits_amo(f3, f5, aq, rl, rd, rs1, rs2)) == (rl == 1),
{
}

/// The round trip for arithmetic with an immediate.
proof fn lemma_round_trip_op_imm(inst: Inst)
    requires
        inst.wf(),
        inst.is_op_imm(),
    ensures
        decode_spec(inst.encode_spec()) == Ok::<Inst, Exception>(inst),
{
    match inst {
        Inst::Addi { rd, rs1, imm } => {
            lemma_pack_i(0x13, 0, rd as u32, rs1 as u32, imm);
        },
        Inst::Slti { rd, rs1, imm } => {
            lemma_pack_i(0x13, 2, rd as u32, rs1 as u32, imm);
        },
        Inst::Sltiu { rd, rs1, imm } => {
            lemma_pack_i(0x13, 3, rd as u32, rs1 as u32, imm);
        },
        Inst::Xori { rd, rs1, imm } => {
            lemma_pack_i(0x13, 4, rd as u32, rs1 as u32, imm);
        },
        Inst::Ori { rd, rs1, imm } => {
            lemma_pack_i(0x13, 6, rd as u32, rs1 as u32, imm);
        },
        Inst::Andi { rd, rs1, imm } => {
            lemma_pack_i(0x13, 7, rd as u32, rs1 as u32, imm);
        },
        Inst::Addiw { rd, rs1, imm } => {
            lemma_pack_i(0x1b, 0, rd as u32, rs1 as u32, imm);
        },
        Inst::Slli { rd, rs1, shamt } => {
            lemma_pack_shift(0x13, 1, 0x0, rd as u32, rs1 as u32, shamt);
        },
        Inst::Srli { rd, rs1, shamt } => {
            lemma_pack_shift(0x13, 5, 0x0, rd as u32, rs1 as u32, shamt);
        },
        Inst::Srai { rd, rs1, shamt } => {
            lemma_pack_shift(0x13, 5, 0x10, rd as u32, rs1 as u32, shamt);
        },
        Inst::Slliw { rd, rs1, shamt } => {
            lemma_pack_shift(0x1b, 1, 0x0, rd as u32, rs1 as u32, shamt);
        },
        Inst::Srliw { rd, rs1, shamt } => {
            lemma_pack_shift(0x1b, 5, 0x0, rd as u32, rs1 as u32, shamt);
        },
        Inst::Sraiw { rd, rs1, shamt } => {
            lemma_pack_shift(0x1b, 5, 0x10, rd as u32, rs1 as u32, shamt);
        },
        _ => {},
    }
}

/// The round trip for loads and stores.
proof fn lemma_round_trip_memory(inst: Inst)
    requires
        inst.wf(),
        inst.is_memory(),
    ensures
        decode_spec(inst.encode_spec()) == Ok::<Inst, Exception>(inst),
{
    match inst {
        Inst::Lb { rd, rs1, imm } => {
            lemma_pack_i(0x3, 0, rd as u32, rs1 as u32, imm);
        },
        Inst::Lh { rd, rs1, imm } => {
            lemma_pack_i(0x3, 1, rd as u32, rs1 as u32, imm);
        },
        Inst::Lw { rd, rs1, imm } => {
            lemma_pack_i(0x3, 2, rd as u32, rs1 as u32, imm);
        },
        Inst::Ld { rd, rs1, imm } => {
            lemma_pack_i(0x3, 3, rd as u32, rs1 as u32, imm);
        },
        Inst::Lbu { rd, rs1, imm } => {
            lemma_pack_i(0x3, 4, rd as u32, rs1 as u32, imm);
        },
        Inst::Lhu { rd, rs1, imm } => {
            lemma_pack_i(0x3, 5, rd as u32, rs1 as u32, imm);
        },
        Inst::Lwu { rd, rs1, imm } => {
            lemma_pack_i(0x3, 6, rd as u32, rs1 as u32, imm);
        },
        Inst::Sb { rs1, rs2, imm } => {
            lemma_pack_s(0x23, 0, rs1 as u32, rs2 as u32, imm);
        },
        Inst::Sh { rs1, rs2, imm } => {
            lemma_pack_s(0x23, 1, rs1 as u32, rs2 as u32, imm);
        },
        Inst::Sw { rs1, rs2, imm } => {
            lemma_pack_s(0x23, 2, rs1 as u32, rs2 as u32, imm);
        },
        Inst::Sd { rs1, rs2, imm } => {
            lemma_pack_s(0x23, 3, rs1 as u32, rs2 as u32, imm);
        },
        _ => {},
    }
}

/// The round trip for fences, environment calls, trap returns and status-register instructions.
proof fn lemma_round_trip_system(inst: Inst)
    requires
        inst.wf(),
        inst.is_system(),
    ensures
        decode_spec(inst.encode_spec()) == Ok::<Inst, Exception>(inst),
{
    match inst {
        Inst::Fence { rd, rs1, imm } => {
            lemma_pack_i(0xf, 0, rd as u32, rs1 as u32, imm);
        },
        Inst::Fencei { rd, rs1, imm } => {
            lemma_pack_i(0xf, 1, rd as u32, rs1 as u32, imm);
        },
        Inst::Ecall => {
            lemma_pack_csr(0, 0, 0, 0x0);
        },
        Inst::Ebreak => {
            lemma_pack_csr(0, 0, 0, 0x1);
        },
        Inst::Sret => {
            lemma_pack_csr(0, 0, 0, 0x102);
        },
        Inst::Mret => {
            lemma_pack_csr(0, 0, 0, 0x302);
        },
        Inst::Sfencevma => {
            lemma_pack_r(0x73, 0, 0x09, 0, 0, 0);
            assert((0x09u32 << 5) | 0 == 0x120u32) by (bit_vector);
        },
        Inst::Csrrw { rd, rs1, csr } => {
            lemma_pack_csr(1, rd as u32, rs1 as u32, csr as u32);
        },
        Inst::Csrrs { rd, rs1, csr } => {
            lemma_pack_csr(2, rd as u32, rs1 as u32, csr as u32);
        },
        Inst::Csrrc { rd, rs1, csr } => {
            lemma_pack_csr(3, rd as u32, rs1 as u32, csr as u32);
        },
        Inst::Csrrwi { rd, uimm, csr } => {
            lemma_pack_csr(5, rd as u32, uimm as u32, csr as u32);
        },
        Inst::Csrrsi { rd, uimm, csr } => {
            lemma_pack_csr(6, rd as u32, uimm as u32, csr as u32);
        },
        Inst::Csrrci { rd, uimm, csr } => {
            lemma_pack_csr(7, rd as u32, uimm as u32, csr as u32);
        },
        _ => {},
    }
}

/// The round trip for upper immediates, jumps and branches.
proof fn lemma_round_trip_jump(inst: Inst)
    requires
        inst.wf(),
        inst.is_jump(),
    ensures
        decode_spec(inst.encode_spec()) == Ok::<Inst, Exception>(inst),
{
    match inst {
        Inst::Jalr { rd, rs1, imm } => {
            lemma_pack_i(0x67, 0, rd as u32, rs1 as u32, imm);
        },
        Inst::Lui { rd, imm } => {
            lemma_pack_u(0x37, rd as u32, imm);
        },
        Inst::Auipc { rd, imm } => {
            lemma_pack_u(0x17, rd as u32, imm);
        },
        Inst::Beq { rs1, rs2, imm } => {
            lemma_pack_b(0x63, 0, rs1 as u32, rs2 as u32, imm);
        },
        Inst::Bne { rs1, rs2, imm } => {
            lemma_pack_b(0x63, 1, rs1 as u32, rs2 as u32, imm);
        },
        Inst::Blt { rs1, rs2, imm } => {
            lemma_pack_b(0x63, 4, rs1 as u32, rs2 as u32, imm);
        },
        Inst::Bge { rs1, rs2, imm } => {
            lemma_pack_b(0x63, 5, rs1 as u32, rs2 as u32, imm);
        },
        Inst::Bltu { rs1, rs2, imm } => {
            lemma_pack_b(0x63, 6, rs1 as u32, rs2 as u32, imm);
        },
        Inst::Bgeu { rs1, rs2, imm } => {
            lemma_pack_b(0x63, 7, rs1 as u32, rs2 as u32, imm);
        },
        Inst::Jal { rd, imm } => {
            lemma_pack_j(0x6f, rd as u32, imm);
        },
        _ => {},
    }
}

/// The round trip for register arithmetic on the full register.
proof fn lemma_round_trip_op(inst: Inst)
    requires
        inst.wf(),
        inst.is_op(),
    ensures
        decode_spec(inst.encode_spec()) == Ok::<Inst, Exception>(inst),
{
    match inst {
        Inst::Add { rd, rs1, rs2 } => {
            lemma_pack_r(0x33, 0, 0x0, rd as u32, rs1 as u32, rs2 as u32);
        },
        Inst::Sub { rd, rs1, rs2 } => {
            lemma_pack_r(0x33, 0, 0x20, rd as u32, rs1 as u32, rs2 as u32);
        },
        Inst::Sll { rd, rs1, rs2 } => {
            lemma_pack_r(0x33, 1, 0x0, rd as u32, rs1 as u32, rs2 as u32);
        },
        Inst::Slt { rd, rs1, rs2 } => {
            lemma_pack_r(0x33, 2, 0x0, rd as u32, rs1 as u32, rs2 as u32);
        },
        Inst::Sltu { rd, rs1, rs2 } => {
            lemma_pack_r(0x33, 3, 0x0, rd as u32, rs1 as u32, rs2 as u32);
        },
        Inst::Xor { rd, rs1, rs2 } => {
            lemma_pack_r(0x33, 4, 0x0, rd as u32, rs1 as u32, rs2 as u32);
        },
        Inst::Srl { rd, rs1, rs2 } => {
            lemma_pack_r(0x33, 5, 0x0, rd as u32, rs1 as u32, rs2 as u32);
        },
        Inst::Sra { rd, rs1, rs2 } => {
            lemma_pack_r(0x33, 5, 0x20, rd as u32, rs1 as u32, rs2 as u32);
        },
        Inst::Or { rd, rs1, rs2 } => {
            lemma_pack_r(0x33, 6, 0x0, rd as u32, rs1 as u32, rs2 as u32);
        },
        Inst::And { rd, rs1, rs2 } => {
            lemma_pack_r(0x33, 7, 0x0, rd as u32, rs1 as u32, rs2 as u32);
        },
        Inst::Mul { rd, rs1, rs2 } => {
            lemma_pack_r(0x33, 0, 0x1, rd as u32, rs1 as u32, rs2 as u32);
        },
        Inst::Mulh { rd, rs1, rs2 } => {
            lemma_pack_r(0x33, 1, 0x1, rd as u32, rs1 as u32, rs2 as u32);
        },
        Inst::Mulhsu { rd, rs1, rs2 } => {
            lemma_pack_r(0x33, 2, 0x1, rd as u32, rs1 as u32, rs2 as u32);
        },
        Inst::Mulhu { rd, rs1, rs2 } => {
            lemma_pack_r(0x33, 3, 0x1, rd as u32, rs1 as u32, rs2 as u32);
        },
        Inst::Div { rd, rs1, rs2 } => {
            lemma_pack_r(0x33, 4, 0x1, rd as u32, rs1 as u32, rs2 as u32);
        },
        Inst::Divu { rd, rs1, rs2 } => {
            lemma_pack_r(0x33, 5, 0x1, rd as u32, rs1 as u32, rs2 as u32);
        },
        Inst::Rem { rd, rs1, rs2 } => {
            lemma_pack_r(0x33, 6, 0x1, rd as u32, rs1 as u32, rs2 as u32);
        },
        Inst::Remu { rd, rs1, rs2 } => {
            lemma_pack_r(0x33, 7, 0x1, rd as u32, rs1 as u32, rs2 as u32);
        },
        _ => {},
    }
}

/// The round trip for register arithmetic on the low word.
proof fn lemma_round_trip_op_32(inst: Inst)
    requires
        inst.wf(),
        inst.is_op_32(),
    ensures
        decode_spec(inst.encode_spec()) == Ok::<Inst, Exception>(inst),
{
    match inst {
        Inst::Addw { rd, rs1, rs2 } => {
            lemma_pack_r(0x3b, 0, 0x0, rd as u32, rs1 as u32, rs2 as u32);
        },
        Inst::Subw { rd, rs1, rs2 } => {
            lemma_pack_r(0x3b, 0, 0x20, rd as u32, rs1 as u32, rs2 as u32);
        },
        Inst::Sllw { rd, rs1, rs2 } => {
            lemma_pack_r(0x3b, 1, 0x0, rd as u32, rs1 as u32, rs2 as u32);
        },
        Inst::Srlw { rd, rs1, rs2 } => {
            lemma_pack_r(0x3b, 5, 0x0, rd as u32, rs1 as u32, rs2 as u32);
        },
        Inst::Sraw { rd, rs1, rs2 } => {
            lemma_pack_r(0x3b, 5, 0x20, rd as u32, rs1 as u32, rs2 as u32);
        },
        Inst::Mulw { rd, rs1, rs2 } => {
            lemma_pack_r(0x3b, 0, 0x1, rd as u32, rs1 as u32, rs2 as u32);
        },
        Inst::Divw { rd, rs1, rs2 } => {
            lemma_pack_r(0x3b, 4, 0x1, rd as u32, rs1 as u32, rs2 as u32);
        },
        Inst::Divuw { rd, rs1, rs2 } => {
            lemma_pack_r(0x3b, 5, 0x1, rd as u32, rs1 as u32, rs2 as u32);
        },
        Inst::Remw { rd, rs1, rs2 } => {
            lemma_pack_r(0x3b, 6, 0x1, rd as u32, rs1 as u32, rs2 as u32);
        },
        Inst::Remuw { rd, rs1, rs2 } => {
            lemma_pack_r(0x3b, 7, 0x1, rd as u32, rs1 as u32, rs2 as u32);
        },
        _ => {},
    }
}

/// The round trip for atomic operations on a word.
proof fn lemma_round_trip_atomic_w(inst: Inst)
    requires
        inst.wf(),
        inst.is_atomic_w(),
    ensures
        decode_spec(inst.encode_spec()) == Ok::<Inst, Exception>(inst),
{
    match inst {
        Inst::Lrw { rd, rs1, aq, rl } => {
            lemma_pack_amo(2, 0x02, flag(aq), flag(rl), rd as u32, rs1 as u32, 0);
        },
        Inst::Scw { rd, rs1, rs2, aq, rl } => {
            lemma_pack_amo(2, 0x03, flag(aq), flag(rl), rd as u32, rs1 as u32, rs2 as u32);
        },
        Inst::Amoswapw { rd, rs1, rs2, aq, rl } => {
            lemma_pack_amo(2, 0x1, flag(aq), flag(rl), rd as u32, rs1 as u32, rs2 as u32);
        },
        Inst::Amoaddw { rd, rs1, rs2, aq, rl } => {
            lemma_pack_amo(2, 0x0, flag(aq), flag(rl), rd as u32, rs1 as u32, rs2 as u32);
        },
        Inst::Amoxorw { rd, rs1, rs2, aq, rl } => {
            lemma_pack_amo(2, 0x4, flag(aq), flag(rl), rd as u32, rs1 as u32, rs2 as u32);
        },
        Inst::Amoandw { rd, rs1, rs2, aq, rl } => {
            lemma_pack_amo(2, 0xc, flag(aq), flag(rl), rd as u32, rs1 as u32, rs2 as u32);
        },
        Inst::Amoorw { rd, rs1, rs2, aq, rl } => {
            lemma_pack_amo(2, 0x8, flag(aq), flag(rl), rd as u32, rs1 as u32, rs2 as u32);
        },
        Inst::Amominw { rd, rs1, rs2, aq, rl } => {
            lemma_pack_amo(2, 0x10, flag(aq), flag(rl), rd as u32, rs1 as u32, rs2 as u32);
        },
        Inst::Amomaxw { rd, rs1, rs2, aq, rl } => {
            lemma_pack_amo(2, 0x14, flag(aq), flag(rl), rd as u32, rs1 as u32, rs2 as u32);
        },
        Inst::Amominuw { rd, rs1, rs2, aq, rl } => {
            lemma_pack_amo(2, 0x18, flag(aq), flag(rl), rd as u32, rs1 as u32, rs2 as u32);
        },
        Inst::Amomaxuw { rd, rs1, rs2, aq, rl } => {
            lemma_pack_amo(2, 0x1c, flag(aq), flag(rl), rd as u32, rs1 as u32, rs2 as u32);
        },
        _ => {},
    }
}

/// The round trip for atomic operations on a doubleword.
proof fn lemma_round_trip_atomic_d(inst: Inst)
    requires
        inst.wf(),
        inst.is_atomic_d(),
    ensures
        decode_spec(inst.encode_spec()) == Ok::<Inst, Exception>(inst),
{
    match inst {
        Inst::Lrd { rd, rs1, aq, rl } => {
            lemma_pack_amo(3, 0x02, flag(aq), flag(rl), rd as u32, rs1 as u32, 0);
        },
        Inst::Scd { rd, rs1, rs2, aq, rl } => {
            lemma_pack_amo(3, 0x03, flag(aq), flag(rl), rd as u32, rs1 as u32, rs2 as u32);
        },
        Inst::Amoswapd { rd, rs1, rs2, aq, rl } => {
            lemma_pack_amo(3, 0x1, flag(aq), flag(rl), rd as u32, rs1 as u32, rs2 as u32);
        },
        Inst::Amoaddd { rd, rs1, rs2, aq, rl } => {
            lemma_pack_amo(3, 0x0, flag(aq), flag(rl), rd as u32, rs1 as u32, rs2 as u32);
        },
        Inst::Amoxord { rd, rs1, rs2, aq, rl } => {
            lemma_pack_amo(3, 0x4, flag(aq), flag(rl), rd as u32, rs1 as u32, rs2 as u32);
        },
        Inst::Amoandd { rd, rs1, rs2, aq, rl } => {
            lemma_pack_amo(3, 0xc, flag(aq), flag(rl), rd as u32, rs1 as u32, rs2 as u32);
        },
        Inst::Amoord { rd, rs1, rs2, aq, rl } => {
            lemma_pack_amo(3, 0x8, flag(aq), flag(rl), rd as u32, rs1 as u32, rs2 as u32);
        },
        Inst::Amomind { rd, rs1, rs2, aq, rl } => {
            lemma_pack_amo(3, 0x10, flag(aq), flag(rl), rd as u32, rs1 as u32, rs2 as u32);
        },
        Inst::Amomaxd { rd, rs1, rs2, aq, rl } => {
            lemma_pack_amo(3, 0x14, flag(aq), flag(rl), rd as u32, rs1 as u32, rs2 as u32);
        },
        Inst::Amominud { rd, rs1, rs2, aq, rl } => {
            lemma_pack_amo(3, 0x18, flag(aq), flag(rl), rd as u32, rs1 as u32, rs2 as u32);
        },
        Inst::Amomaxud { rd, rs1, rs2, aq, rl } => {
            lemma_pack_amo(3, 0x1c, flag(aq), flag(rl), rd as u32, rs1 as u32, rs2 as u32);
        },
        _ => {},
    }
}

/// A well-formed instruction, encoded and decoded again, comes back as it was.
pub proof fn lemma_decode_encode(inst: Inst)
    requires
        inst.wf(),
    ensures
        decode_spec(inst.encode_spec()) == Ok::<Inst, Exception>(inst),
{
    if inst.is_op_imm() {
        lemma_round_trip_op_imm(inst);
    }
    if inst.is_memory() {
        lemma_round_trip_memory(inst);
    }
    if inst.is_system() {
        lemma_round_trip_system(inst);
    }
    if inst.is_jump() {
        lemma_round_trip_jump(inst);
    }
    if inst.is_op() {
        lemma_round_trip_op(inst);
    }
    if inst.is_op_32() {
        lemma_round_trip_op_32(inst);
    }
    if inst.is_atomic_w() {
        lemma_round_trip_atomic_w(inst);
    }
    if inst.is_atomic_d() {
        lemma_round_trip_atomic_d(inst);
    }
}

/// Every word is the R-format word of its own fields.
proof fn lemma_unpack_r(w: u32)
    by (bit_vector)
    ensures
        bits_r(w & 0x7f, (w >> 12) & 0x7, w >> 25, (w >> 7) & 0x1f, (w >> 15) & 0x1f, (w >> 20)
            & 0x1f) == w,
{
}

/// Every word is the I-format word of its own fields.
proof fn lemma_unpack_i(w: u32)
    by (bit_vector)
    ensures
        bits_i(w & 0x7f, (w >> 12) & 0x7, (w >> 7) & 0x1f, (w >> 15) & 0x1f, imm_i_of(w)) == w,
{
}

/// Every word is the shift word of its own fields; where bits 31:25 are those
/// of a word shift, the amount has five bits.
proof fn lemma_unpack_shift(w: u32)
    by (bit_vector)
    ensures
        bits_shift(w & 0x7f, (w >> 12) & 0x7, w >> 26, (w >> 7) & 0x1f, (w >> 15) & 0x1f, (w >> 20)
            & 0x3f) == w,
        w >> 25 == 0x00 ==> bits_shift(
            w & 0x7f,
            (w >> 12) & 0x7,
            0x00,
            (w >> 7) & 0x1f,
            (w >> 15) & 0x1f,
            (w >> 20) & 0x1f,
        ) == w,
        w >> 25 == 0x20 ==> bits_shift(
            w & 0x7f,
            (w >> 12) & 0x7,
            0x10,
            (w >> 7) & 0x1f,
            (w >> 15) & 0x1f,
            (w >> 20) & 0x1f,
        ) == w,
{
}

/// Every word with the system opcode is the system word of its own fields.
proof fn lemma_unpack_csr(w: u32)
    by (bit_vector)
    requires
        w & 0x7f == 0x73,
    ensures
        bits_csr((w >> 12) & 0x7, (w >> 7) & 0x1f, (w >> 15) & 0x1f, w >> 20) == w,
{
}

/// Every word is the S-format word of its own fields.
proof fn lemma_unpack_s(w: u32)
    by (bit_vector)
    ensures
        bits_s(w & 0x7f, (w >> 12) & 0x7, (w >> 15) & 0x1f, (w >> 20) & 0x1f, imm_s_of(w)) == w,
{
}

/// Every word is the B-format word of its own fields.
proof fn lemma_unpack_b(w: u32)
    by (bit_vector)
    ensures
        bits_b(w & 0x7f, (w >> 12) & 0x7, (w >> 15) & 0x1f, (w >> 20) & 0x1f, imm_b_of(w)) == w,
{
}

/// Every word is the U-format word of its own fields.
proof fn lemma_unpack_u(w: u32)
    by (bit_vector)
    ensures
        bits_u(w & 0x7f, (w >> 7) & 0x1f, imm_u_of(w)) == w,
{
}

/// Every word is the J-format word of its own fields.
proof fn lemma_unpack_j(w: u32)
    by (bit_vector)
    ensures
        bits_j(w & 0x7f, (w >> 7) & 0x1f, imm_j_of(w)) == w,
{
}

/// Every word with the atomic opcode is the atomic word of its own fields.
proof fn lemma_unpack_amo(w: u32)
    by (bit_vector)
    requires
        w & 0x7f == 0x2f,
    ensures
        bits_amo(
            (w >> 12) & 0x7,
            w >> 27,
            (w >> 26) & 1,
            (w >> 25) & 1,
            (w >> 7) & 0x1f,
            (w >> 15) & 0x1f,
            (w >> 20) & 0x1f,
        ) == w,
        (w >> 26) & 1 == 0 || (w >> 26) & 1 == 1,
        (w >> 25) & 1 == 0 || (w >> 25) & 1 == 1,
{
}

/// The instruction that a word decodes to encodes to that word.
pub open spec fn reencodes(w: u32, r: Result<Inst, Exception>) -> bool {
    r is Ok && !(r->Ok_0 is Sfencevma) ==> r->Ok_0.encode_spec() == w
}

proof fn lemma_reencode_load(w: u32)
    requires
        opcode_of(w) == OPCODE_LOAD,
    ensures
        reencodes(w, decode_load_spec(w)),
{
    lemma_field_ranges(w);
    lemma_unpack_i(w);
}

proof fn lemma_reencode_op_imm(w: u32)
    requires
        opcode_of(w) == OPCODE_OP_IMM,
    ensures
        reencodes(w, decode_op_imm_spec(w)),
{
    lemma_field_ranges(w);
    lemma_unpack_i(w);
    lemma_unpack_shift(w);
}

proof fn lemma_reencode_op_imm_32(w: u32)
    requires
        opcode_of(w) == OPCODE_OP_IMM_32,
    ensures
        reencodes(w, decode_op_imm_32_spec(w)),
{
    lemma_field_ranges(w);
    lemma_unpack_i(w);
    lemma_unpack_shift(w);
}

proof fn lemma_reencode_system(w: u32)
    requires
        opcode_of(w) == OPCODE_SYSTEM,
    ensures
        reencodes(w, decode_system_spec(w)),
{
    lemma_field_ranges(w);
    lemma_unpack_csr(w);
}

proof fn lemma_reencode_i(w: u32)
    ensures
        reencodes(w, decode_i_spec(w)),
{
    lemma_field_ranges(w);
    lemma_unpack_i(w);
    let opcode = opcode_of(w);
    if opcode == OPCODE_LOAD {
        lemma_reencode_load(w);
    } else if opcode == OPCODE_OP_IMM {
        lemma_reencode_op_imm(w);
    } else if opcode == OPCODE_OP_IMM_32 {
        lemma_reencode_op_imm_32(w);
    } else if opcode == OPCODE_SYSTEM {
        lemma_reencode_system(w);
    }
}

proof fn lemma_reencode_op(w: u32)
    requires
        opcode_of(w) == OPCODE_OP,
    ensures
        reencodes(w, decode_op_spec(w)),
{
    lemma_field_ranges(w);
    lemma_unpack_r(w);
}

proof fn lemma_reencode_op_32(w: u32)
    requires
        opcode_of(w) == OPCODE_OP_32,
    ensures
        reencodes(w, decode_op_32_spec(w)),
{
    lemma_field_ranges(w);
    lemma_unpack_r(w);
}

proof fn lemma_reencode_amo_w(w: u32)
    requires
        opcode_of(w) == OPCODE_AMO,
        funct3_of(w) == 2,
    ensures
        reencodes(w, decode_amo_w_spec(w)),
{
    lemma_field_ranges(w);
    lemma_unpack_amo(w);
}

proof fn lemma_reencode_amo_d(w: u32)
    requires
        opcode_of(w) == OPCODE_AMO,
        funct3_of(w) == 3,
    ensures
        reencodes(w, decode_amo_d_spec(w)),
{
    lemma_field_ranges(w);
    lemma_unpack_amo(w);
}

proof fn lemma_reencode_r(w: u32)
    ensures
        reencodes(w, decode_r_spec(w)),
{
    let opcode = opcode_of(w);
    if opcode == OPCODE_OP {
        lemma_reencode_op(w);
    } else if opcode == OPCODE_OP_32 {
        lemma_reencode_op_32(w);
    } else if opcode == OPCODE_AMO {
        if funct3_of(w) == 2 {
            lemma_reencode_amo_w(w);
        } else if funct3_of(w) == 3 {
            lemma_reencode_amo_d(w);
        }
    }
}

proof fn lemma_reencode_rest(w: u32)
    ensures
        reencodes(w, decode_s_spec(w)),
        reencodes(w, decode_b_spec(w)),
        reencodes(w, decode_u_spec(w)),
        reencodes(w, decode_j_spec(w)),
{
    lemma_field_ranges(w);
    lemma_unpack_s(w);
    lemma_unpack_b(w);
    lemma_unpack_u(w);
    lemma_unpack_j(w);
}

/// A word that decodes to an instruction is the word that the instruction
/// encodes to: the decoder drops no bit. The one exception is the
/// address-translation fence, which stands for every word of its family.
pub proof fn lemma_encode_decode(w: u32)
    requires
        decode_spec(w) is Ok,
        !(decode_spec(w)->Ok_0 is Sfencevma),
    ensures
        decode_spec(w)->Ok_0.encode_spec() == w,
{
    lemma_reencode_i(w);
    lemma_reencode_r(w);
    lemma_reencode_rest(w);
}

/// A word is the encoding of a well-formed instruction other than the
/// address-translation fence exactly if it decodes to that instruction.
pub proof fn lemma_decodes_exactly_the_encodings(w: u32, inst: Inst)
    requires
        !(inst is Sfencevma),
    ensures
        decode_spec(w) == Ok::<Inst, Exception>(inst) <==> inst.wf() && inst.encode_spec() == w,
{
    lemma_decode_wf(w);
    if decode_spec(w) == Ok::<Inst, Exception>(inst) {
        lemma_encode_decode(w);
    }
    if inst.wf() && inst.encode_spec() == w {
        lemma_decode_encode(inst);
    }
}

} // verus!
