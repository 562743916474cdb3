use rrv64g::cpu::Cpu;
use rrv64g::decode::decode_word;
use rrv64g::exceptions::Exception;
use rrv64g::inst::{ImmType, Inst};

#[test]
fn it_works() {
    let result = 2 + 2;
    println!("Hello world!");
    assert_eq!(result, 4);
}

#[test]
fn test_decoding() {
    let inst = Cpu::decode(0x0105053b);

    if let Ok(inst) = inst {
        println!("{:?}", inst);
    } else {
        println!("Error");
    }

    assert_eq!(inst, Ok(Inst::Addw { rd: 10, rs1: 10, rs2: 16 }));
}

#[test]
fn decoding() {
    println!("{:?}", Cpu::decode(0xfae7d4e3));

    assert_eq!(Cpu::decode(0xfae7d4e3), Ok(Inst::Bge { rs1: 15, rs2: 14, imm: -88 }));
}

#[test]
fn decode_immediate_arithmetic() {
    assert_eq!(Cpu::decode(0x00500513), Ok(Inst::Addi { rd: 10, rs1: 0, imm: 5 }));
    assert_eq!(Cpu::decode(0xfff00513), Ok(Inst::Addi { rd: 10, rs1: 0, imm: -1 }));
    assert_eq!(Cpu::decode(0x80000513), Ok(Inst::Addi { rd: 10, rs1: 0, imm: -2048 }));
    assert_eq!(Cpu::decode(0x7ff00513), Ok(Inst::Addi { rd: 10, rs1: 0, imm: 2047 }));
    assert_eq!(Cpu::decode(0x0010a093), Ok(Inst::Slti { rd: 1, rs1: 1, imm: 1 }));
    assert_eq!(Cpu::decode(0x0010b093), Ok(Inst::Sltiu { rd: 1, rs1: 1, imm: 1 }));
    assert_eq!(Cpu::decode(0x0010c093), Ok(Inst::Xori { rd: 1, rs1: 1, imm: 1 }));
    assert_eq!(Cpu::decode(0x0010e093), Ok(Inst::Ori { rd: 1, rs1: 1, imm: 1 }));
    assert_eq!(Cpu::decode(0x0010f093), Ok(Inst::Andi { rd: 1, rs1: 1, imm: 1 }));
    assert_eq!(Cpu::decode(0x0010809b), Ok(Inst::Addiw { rd: 1, rs1: 1, imm: 1 }));
}

#[test]
fn decode_immediate_shifts() {
    assert_eq!(Cpu::decode(0x40315093), Ok(Inst::Srai { rd: 1, rs1: 2, shamt: 3 }));
    assert_eq!(Cpu::decode(0x00315093), Ok(Inst::Srli { rd: 1, rs1: 2, shamt: 3 }));
    assert_eq!(Cpu::decode(0x00311093), Ok(Inst::Slli { rd: 1, rs1: 2, shamt: 3 }));
    assert_eq!(Cpu::decode(0x03f11093), Ok(Inst::Slli { rd: 1, rs1: 2, shamt: 63 }));
    assert_eq!(Cpu::decode(0x43f15093), Ok(Inst::Srai { rd: 1, rs1: 2, shamt: 63 }));
    assert_eq!(Cpu::decode(0x0031109b), Ok(Inst::Slliw { rd: 1, rs1: 2, shamt: 3 }));
    assert_eq!(Cpu::decode(0x0031509b), Ok(Inst::Srliw { rd: 1, rs1: 2, shamt: 3 }));
    assert_eq!(Cpu::decode(0x4031509b), Ok(Inst::Sraiw { rd: 1, rs1: 2, shamt: 3 }));
}

#[test]
fn decode_shift_with_stray_high_bits_is_illegal() {
    // A left shift with bit 30 set, and a word shift by more than 31.
    assert_eq!(Cpu::decode(0x40311093), Err(Exception::IllegalInstruction(0x40311093)));
    assert_eq!(Cpu::decode(0x0231109b), Err(Exception::IllegalInstruction(0x0231109b)));
    assert_eq!(Cpu::decode(0x80315093), Err(Exception::IllegalInstruction(0x80315093)));
}

#[test]
fn decode_loads_and_stores() {
    assert_eq!(Cpu::decode(0x00813503), Ok(Inst::Ld { rd: 10, rs1: 2, imm: 8 }));
    assert_eq!(Cpu::decode(0x00810503), Ok(Inst::Lb { rd: 10, rs1: 2, imm: 8 }));
    assert_eq!(Cpu::decode(0x00811503), Ok(Inst::Lh { rd: 10, rs1: 2, imm: 8 }));
    assert_eq!(Cpu::decode(0x00812503), Ok(Inst::Lw { rd: 10, rs1: 2, imm: 8 }));
    assert_eq!(Cpu::decode(0x00814503), Ok(Inst::Lbu { rd: 10, rs1: 2, imm: 8 }));
    assert_eq!(Cpu::decode(0x00815503), Ok(Inst::Lhu { rd: 10, rs1: 2, imm: 8 }));
    assert_eq!(Cpu::decode(0x00816503), Ok(Inst::Lwu { rd: 10, rs1: 2, imm: 8 }));
    assert_eq!(Cpu::decode(0x00817503), Err(Exception::IllegalInstruction(0x00817503)));
    assert_eq!(Cpu::decode(0x00532023), Ok(Inst::Sw { rs1: 6, rs2: 5, imm: 0 }));
    assert_eq!(Cpu::decode(0xfe530fa3), Ok(Inst::Sb { rs1: 6, rs2: 5, imm: -1 }));
    assert_eq!(Cpu::decode(0x00531423), Ok(Inst::Sh { rs1: 6, rs2: 5, imm: 8 }));
    assert_eq!(Cpu::decode(0x7e533fa3), Ok(Inst::Sd { rs1: 6, rs2: 5, imm: 2047 }));
    assert_eq!(Cpu::decode(0x00534023), Err(Exception::IllegalInstruction(0x00534023)));
}

#[test]
fn decode_register_arithmetic() {
    assert_eq!(Cpu::decode(0x00b50533), Ok(Inst::Add { rd: 10, rs1: 10, rs2: 11 }));
    assert_eq!(Cpu::decode(0x40b50533), Ok(Inst::Sub { rd: 10, rs1: 10, rs2: 11 }));
    assert_eq!(Cpu::decode(0x00b51533), Ok(Inst::Sll { rd: 10, rs1: 10, rs2: 11 }));
    assert_eq!(Cpu::decode(0x00b52533), Ok(Inst::Slt { rd: 10, rs1: 10, rs2: 11 }));
    assert_eq!(Cpu::decode(0x00b53533), Ok(Inst::Sltu { rd: 10, rs1: 10, rs2: 11 }));
    assert_eq!(Cpu::decode(0x00b54533), Ok(Inst::Xor { rd: 10, rs1: 10, rs2: 11 }));
    assert_eq!(Cpu::decode(0x00b55533), Ok(Inst::Srl { rd: 10, rs1: 10, rs2: 11 }));
    assert_eq!(Cpu::decode(0x40b55533), Ok(Inst::Sra { rd: 10, rs1: 10, rs2: 11 }));
    assert_eq!(Cpu::decode(0x00b56533), Ok(Inst::Or { rd: 10, rs1: 10, rs2: 11 }));
    assert_eq!(Cpu::decode(0x00b57533), Ok(Inst::And { rd: 10, rs1: 10, rs2: 11 }));
    assert_eq!(Cpu::decode(0x02b50533), Ok(Inst::Mul { rd: 10, rs1: 10, rs2: 11 }));
    assert_eq!(Cpu::decode(0x02b51533), Ok(Inst::Mulh { rd: 10, rs1: 10, rs2: 11 }));
    assert_eq!(Cpu::decode(0x02b52533), Ok(Inst::Mulhsu { rd: 10, rs1: 10, rs2: 11 }));
    assert_eq!(Cpu::decode(0x02b53533), Ok(Inst::Mulhu { rd: 10, rs1: 10, rs2: 11 }));
    assert_eq!(Cpu::decode(0x02b54533), Ok(Inst::Div { rd: 10, rs1: 10, rs2: 11 }));
    assert_eq!(Cpu::decode(0x02b55533), Ok(Inst::Divu { rd: 10, rs1: 10, rs2: 11 }));
    assert_eq!(Cpu::decode(0x02b56533), Ok(Inst::Rem { rd: 10, rs1: 10, rs2: 11 }));
    assert_eq!(Cpu::decode(0x02b57533), Ok(Inst::Remu { rd: 10, rs1: 10, rs2: 11 }));
    assert_eq!(Cpu::decode(0x40b5053b), Ok(Inst::Subw { rd: 10, rs1: 10, rs2: 11 }));
    assert_eq!(Cpu::decode(0x00b5153b), Ok(Inst::Sllw { rd: 10, rs1: 10, rs2: 11 }));
    assert_eq!(Cpu::decode(0x00b5553b), Ok(Inst::Srlw { rd: 10, rs1: 10, rs2: 11 }));
    assert_eq!(Cpu::decode(0x40b5553b), Ok(Inst::Sraw { rd: 10, rs1: 10, rs2: 11 }));
    assert_eq!(Cpu::decode(0x02b5053b), Ok(Inst::Mulw { rd: 10, rs1: 10, rs2: 11 }));
    assert_eq!(Cpu::decode(0x02b5453b), Ok(Inst::Divw { rd: 10, rs1: 10, rs2: 11 }));
    assert_eq!(Cpu::decode(0x02b5553b), Ok(Inst::Divuw { rd: 10, rs1: 10, rs2: 11 }));
    assert_eq!(Cpu::decode(0x02b5653b), Ok(Inst::Remw { rd: 10, rs1: 10, rs2: 11 }));
    assert_eq!(Cpu::decode(0x02b5753b), Ok(Inst::Remuw { rd: 10, rs1: 10, rs2: 11 }));
}

#[test]
fn decode_unlisted_function_fields_are_illegal() {
    // funct7 that names no operation, under both register opcodes.
    assert_eq!(Cpu::decode(0x04b50533), Err(Exception::IllegalInstruction(0x04b50533)));
    assert_eq!(Cpu::decode(0x40b51533), Err(Exception::IllegalInstruction(0x40b51533)));
    assert_eq!(Cpu::decode(0x00b5253b), Err(Exception::IllegalInstruction(0x00b5253b)));
    assert_eq!(Cpu::decode(0x02b5153b), Err(Exception::IllegalInstruction(0x02b5153b)));
    // A branch with funct3 = 2, a jump-register with funct3 = 1.
    assert_eq!(Cpu::decode(0x00002063), Err(Exception::IllegalInstruction(0x00002063)));
    assert_eq!(Cpu::decode(0x00009067), Err(Exception::IllegalInstruction(0x00009067)));
}

#[test]
fn decode_upper_immediates_and_jumps() {
    assert_eq!(Cpu::decode(0x12345537), Ok(Inst::Lui { rd: 10, imm: 0x12345000 }));
    assert_eq!(Cpu::decode(0xfffff537), Ok(Inst::Lui { rd: 10, imm: -4096 }));
    assert_eq!(Cpu::decode(0x00001517), Ok(Inst::Auipc { rd: 10, imm: 0x1000 }));
    assert_eq!(Cpu::decode(0x008000ef), Ok(Inst::Jal { rd: 1, imm: 8 }));
    assert_eq!(Cpu::decode(0xff9ff0ef), Ok(Inst::Jal { rd: 1, imm: -8 }));
    assert_eq!(Cpu::decode(0x00008067), Ok(Inst::Jalr { rd: 0, rs1: 1, imm: 0 }));
    assert_eq!(Cpu::decode(0x00108463), Ok(Inst::Beq { rs1: 1, rs2: 1, imm: 8 }));
    assert_eq!(Cpu::decode(0x00109463), Ok(Inst::Bne { rs1: 1, rs2: 1, imm: 8 }));
    assert_eq!(Cpu::decode(0x0010c463), Ok(Inst::Blt { rs1: 1, rs2: 1, imm: 8 }));
    assert_eq!(Cpu::decode(0x0010e463), Ok(Inst::Bltu { rs1: 1, rs2: 1, imm: 8 }));
    assert_eq!(Cpu::decode(0x0010f463), Ok(Inst::Bgeu { rs1: 1, rs2: 1, imm: 8 }));
}

#[test]
fn decode_system() {
    assert_eq!(Cpu::decode(0x00000073), Ok(Inst::Ecall));
    assert_eq!(Cpu::decode(0x00100073), Ok(Inst::Ebreak));
    assert_eq!(Cpu::decode(0x10200073), Ok(Inst::Sret));
    assert_eq!(Cpu::decode(0x30200073), Ok(Inst::Mret));
    assert_eq!(Cpu::decode(0x12000073), Ok(Inst::Sfencevma));
    assert_eq!(Cpu::decode(0x12b50073), Ok(Inst::Sfencevma));
    assert_eq!(Cpu::decode(0x30529073), Ok(Inst::Csrrw { rd: 0, rs1: 5, csr: 0x305 }));
    assert_eq!(Cpu::decode(0x3002a573), Ok(Inst::Csrrs { rd: 10, rs1: 5, csr: 0x300 }));
    assert_eq!(Cpu::decode(0x3002b573), Ok(Inst::Csrrc { rd: 10, rs1: 5, csr: 0x300 }));
    assert_eq!(Cpu::decode(0x3002d573), Ok(Inst::Csrrwi { rd: 10, uimm: 5, csr: 0x300 }));
    assert_eq!(Cpu::decode(0x3002e573), Ok(Inst::Csrrsi { rd: 10, uimm: 5, csr: 0x300 }));
    assert_eq!(Cpu::decode(0xfff2f573), Ok(Inst::Csrrci { rd: 10, uimm: 5, csr: 0xfff }));
    // funct3 = 4 names nothing, and neither does a zero funct7 with operands.
    assert_eq!(Cpu::decode(0x3002c573), Err(Exception::IllegalInstruction(0x3002c573)));
    assert_eq!(Cpu::decode(0x00200073), Err(Exception::IllegalInstruction(0x00200073)));
    assert_eq!(Cpu::decode(0x00000573), Err(Exception::IllegalInstruction(0x00000573)));
}

#[test]
fn decode_fences() {
    assert_eq!(Cpu::decode(0x0ff0000f), Ok(Inst::Fence { rd: 0, rs1: 0, imm: 0xff }));
    assert_eq!(Cpu::decode(0x0000100f), Ok(Inst::Fencei { rd: 0, rs1: 0, imm: 0 }));
    assert_eq!(Cpu::decode(0x0000200f), Err(Exception::IllegalInstruction(0x0000200f)));
}

#[test]
fn decode_atomics() {
    assert_eq!(Cpu::decode(0x1005252f), Ok(Inst::Lrw { rd: 10, rs1: 10, aq: false, rl: false }));
    assert_eq!(Cpu::decode(0x1005352f), Ok(Inst::Lrd { rd: 10, rs1: 10, aq: false, rl: false }));
    assert_eq!(
        Cpu::decode(0x18b6252f),
        Ok(Inst::Scw { rd: 10, rs1: 12, rs2: 11, aq: false, rl: false })
    );
    assert_eq!(
        Cpu::decode(0x08b6252f),
        Ok(Inst::Amoswapw { rd: 10, rs1: 12, rs2: 11, aq: false, rl: false })
    );
    assert_eq!(
        Cpu::decode(0x06b6352f),
        Ok(Inst::Amoaddd { rd: 10, rs1: 12, rs2: 11, aq: true, rl: true })
    );
    assert_eq!(
        Cpu::decode(0xe4b6252f),
        Ok(Inst::Amomaxuw { rd: 10, rs1: 12, rs2: 11, aq: true, rl: false })
    );
    assert_eq!(
        Cpu::decode(0xc2b6352f),
        Ok(Inst::Amominud { rd: 10, rs1: 12, rs2: 11, aq: false, rl: true })
    );
    // A load-reserved with a second source, an unlisted operation, a byte width.
    assert_eq!(Cpu::decode(0x10b5252f), Err(Exception::IllegalInstruction(0x10b5252f)));
    assert_eq!(Cpu::decode(0x28b6252f), Err(Exception::IllegalInstruction(0x28b6252f)));
    assert_eq!(Cpu::decode(0x08b6052f), Err(Exception::IllegalInstruction(0x08b6052f)));
}

#[test]
fn every_opcode_outside_the_table_is_illegal() {
    let rows = [0x03u32, 0x0f, 0x13, 0x17, 0x1b, 0x23, 0x2f, 0x33, 0x37, 0x3b, 0x63, 0x67, 0x6f, 0x73];
    for opcode in 0u32..128 {
        let in_table = rows.contains(&opcode);
        assert_eq!(ImmType::of_opcode(opcode).is_some(), in_table);
        if !in_table {
            for upper in [0u32, 0x0000_0080, 0x00b5_0500, 0xffff_ff80, 0x1234_5680] {
                let word = upper | opcode;
                assert_eq!(Cpu::decode(word), Err(Exception::IllegalInstruction(word as u64)));
            }
        }
    }
}

#[test]
fn opcode_table_formats() {
    assert_eq!(ImmType::of_opcode(0x03), Some(ImmType::I));
    assert_eq!(ImmType::of_opcode(0x0f), Some(ImmType::I));
    assert_eq!(ImmType::of_opcode(0x13), Some(ImmType::I));
    assert_eq!(ImmType::of_opcode(0x17), Some(ImmType::U));
    assert_eq!(ImmType::of_opcode(0x1b), Some(ImmType::I));
    assert_eq!(ImmType::of_opcode(0x23), Some(ImmType::S));
    assert_eq!(ImmType::of_opcode(0x2f), Some(ImmType::R));
    assert_eq!(ImmType::of_opcode(0x33), Some(ImmType::R));
    assert_eq!(ImmType::of_opcode(0x37), Some(ImmType::U));
    assert_eq!(ImmType::of_opcode(0x3b), Some(ImmType::R));
    assert_eq!(ImmType::of_opcode(0x63), Some(ImmType::B));
    assert_eq!(ImmType::of_opcode(0x67), Some(ImmType::I));
    assert_eq!(ImmType::of_opcode(0x6f), Some(ImmType::J));
    assert_eq!(ImmType::of_opcode(0x73), Some(ImmType::I));
    assert_eq!(ImmType::of_opcode(0x00), None);
    assert_eq!(ImmType::of_opcode(0x7f), None);
}

#[test]
fn a_format_rejects_words_of_another() {
    // An add read as a store, a store read as a branch, a jump read as an upper immediate.
    assert_eq!(ImmType::S.decode(0x00b50533), Err(Exception::IllegalInstruction(0x00b50533)));
    assert_eq!(ImmType::B.decode(0x00532023), Err(Exception::IllegalInstruction(0x00532023)));
    assert_eq!(ImmType::U.decode(0x008000ef), Err(Exception::IllegalInstruction(0x008000ef)));
    assert_eq!(ImmType::J.decode(0x12345537), Err(Exception::IllegalInstruction(0x12345537)));
    assert_eq!(ImmType::R.decode(0x00500513), Err(Exception::IllegalInstruction(0x00500513)));
    assert_eq!(ImmType::I.decode(0x00b50533), Err(Exception::IllegalInstruction(0x00b50533)));
    assert_eq!(ImmType::R.decode(0x00b50533), Ok(Inst::Add { rd: 10, rs1: 10, rs2: 11 }));
    assert_eq!(ImmType::I.decode(0x00500513), Ok(Inst::Addi { rd: 10, rs1: 0, imm: 5 }));
    assert_eq!(decode_word(0x00500513), Ok(Inst::Addi { rd: 10, rs1: 0, imm: 5 }));
}

#[test]
fn encode_known_words() {
    assert_eq!(Inst::Addi { rd: 10, rs1: 0, imm: 5 }.encode(), 0x00500513);
    assert_eq!(Inst::Addw { rd: 10, rs1: 10, rs2: 16 }.encode(), 0x0105053b);
    assert_eq!(Inst::Bge { rs1: 15, rs2: 14, imm: -88 }.encode(), 0xfae7d4e3);
    assert_eq!(Inst::Sw { rs1: 6, rs2: 5, imm: 0 }.encode(), 0x00532023);
    assert_eq!(Inst::Beq { rs1: 1, rs2: 1, imm: 8 }.encode(), 0x00108463);
    assert_eq!(Inst::Jal { rd: 1, imm: -8 }.encode(), 0xff9ff0ef);
    assert_eq!(Inst::Lui { rd: 10, imm: 0x12345000 }.encode(), 0x12345537);
    assert_eq!(Inst::Srai { rd: 1, rs1: 2, shamt: 3 }.encode(), 0x40315093);
    assert_eq!(Inst::Sraiw { rd: 1, rs1: 2, shamt: 3 }.encode(), 0x4031509b);
    assert_eq!(Inst::Ecall.encode(), 0x00000073);
    assert_eq!(Inst::Ebreak.encode(), 0x00100073);
    assert_eq!(Inst::Sret.encode(), 0x10200073);
    assert_eq!(Inst::Mret.encode(), 0x30200073);
    assert_eq!(Inst::Sfencevma.encode(), 0x12000073);
    assert_eq!(Inst::Csrrw { rd: 0, rs1: 5, csr: 0x305 }.encode(), 0x30529073);
    assert_eq!(Inst::Csrrwi { rd: 10, uimm: 5, csr: 0x300 }.encode(), 0x3002d573);
    assert_eq!(Inst::Lrw { rd: 10, rs1: 10, aq: false, rl: false }.encode(), 0x1005252f);
    assert_eq!(
        Inst::Amoaddd { rd: 10, rs1: 12, rs2: 11, aq: true, rl: true }.encode(),
        0x06b6352f
    );
    assert_eq!(Inst::Mul { rd: 10, rs1: 10, rs2: 11 }.encode(), 0x02b50533);
    assert_eq!(Inst::Sd { rs1: 6, rs2: 5, imm: 2047 }.encode(), 0x7e533fa3);
}

fn round_trip(inst: Inst) {
    assert_eq!(Cpu::decode(inst.encode()), Ok(inst));
}

#[test]
fn encode_then_decode_register_forms() {
    for rd in [0usize, 1, 15, 31] {
        for rs1 in [0usize, 7, 31] {
            for rs2 in [0usize, 16, 31] {
                round_trip(Inst::Add { rd, rs1, rs2 });
                round_trip(Inst::Sub { rd, rs1, rs2 });
                round_trip(Inst::Sll { rd, rs1, rs2 });
                round_trip(Inst::Slt { rd, rs1, rs2 });
                round_trip(Inst::Sltu { rd, rs1, rs2 });
                round_trip(Inst::Xor { rd, rs1, rs2 });
                round_trip(Inst::Srl { rd, rs1, rs2 });
                round_trip(Inst::Sra { rd, rs1, rs2 });
                round_trip(Inst::Or { rd, rs1, rs2 });
                round_trip(Inst::And { rd, rs1, rs2 });
                round_trip(Inst::Mul { rd, rs1, rs2 });
                round_trip(Inst::Mulh { rd, rs1, rs2 });
                round_trip(Inst::Mulhsu { rd, rs1, rs2 });
                round_trip(Inst::Mulhu { rd, rs1, rs2 });
                round_trip(Inst::Div { rd, rs1, rs2 });
                round_trip(Inst::Divu { rd, rs1, rs2 });
                round_trip(Inst::Rem { rd, rs1, rs2 });
                round_trip(Inst::Remu { rd, rs1, rs2 });
                round_trip(Inst::Addw { rd, rs1, rs2 });
                round_trip(Inst::Subw { rd, rs1, rs2 });
                round_trip(Inst::Sllw { rd, rs1, rs2 });
                round_trip(Inst::Srlw { rd, rs1, rs2 });
                round_trip(Inst::Sraw { rd, rs1, rs2 });
                round_trip(Inst::Mulw { rd, rs1, rs2 });
                round_trip(Inst::Divw { rd, rs1, rs2 });
                round_trip(Inst::Divuw { rd, rs1, rs2 });
                round_trip(Inst::Remw { rd, rs1, rs2 });
                round_trip(Inst::Remuw { rd, rs1, rs2 });
            }
        }
    }
}

#[test]
fn encode_then_decode_immediate_forms() {
    for rd in [0usize, 9, 31] {
        for rs1 in [0usize, 20, 31] {
            for imm in [-2048i64, -1, 0, 1, 0x555, 2047] {
                round_trip(Inst::Addi { rd, rs1, imm });
                round_trip(Inst::Slti { rd, rs1, imm });
                round_trip(Inst::Sltiu { rd, rs1, imm });
                round_trip(Inst::Xori { rd, rs1, imm });
                round_trip(Inst::Ori { rd, rs1, imm });
                round_trip(Inst::Andi { rd, rs1, imm });
                round_trip(Inst::Addiw { rd, rs1, imm });
                round_trip(Inst::Lb { rd, rs1, imm });
                round_trip(Inst::Lh { rd, rs1, imm });
                round_trip(Inst::Lw { rd, rs1, imm });
                round_trip(Inst::Ld { rd, rs1, imm });
                round_trip(Inst::Lbu { rd, rs1, imm });
                round_trip(Inst::Lhu { rd, rs1, imm });
                round_trip(Inst::Lwu { rd, rs1, imm });
                round_trip(Inst::Jalr { rd, rs1, imm });
                round_trip(Inst::Fence { rd, rs1, imm });
                round_trip(Inst::Fencei { rd, rs1, imm });
                round_trip(Inst::Sb { rs1, rs2: rd, imm });
                round_trip(Inst::Sh { rs1, rs2: rd, imm });
                round_trip(Inst::Sw { rs1, rs2: rd, imm });
                round_trip(Inst::Sd { rs1, rs2: rd, imm });
            }
            for shamt in [0u32, 1, 31, 32, 63] {
                round_trip(Inst::Slli { rd, rs1, shamt });
                round_trip(Inst::Srli { rd, rs1, shamt });
                round_trip(Inst::Srai { rd, rs1, shamt });
            }
            for shamt in [0u32, 1, 17, 31] {
                round_trip(Inst::Slliw { rd, rs1, shamt });
                round_trip(Inst::Srliw { rd, rs1, shamt });
                round_trip(Inst::Sraiw { rd, rs1, shamt });
            }
        }
    }
}

#[test]
fn encode_then_decode_control_flow() {
    for rs1 in [0usize, 13, 31] {
        for rs2 in [0usize, 2, 31] {
            for imm in [-4096i64, -2, 0, 2, 8, 0xaaa, 4094] {
                round_trip(Inst::Beq { rs1, rs2, imm });
                round_trip(Inst::Bne { rs1, rs2, imm });
                round_trip(Inst::Blt { rs1, rs2, imm });
                round_trip(Inst::Bge { rs1, rs2, imm });
                round_trip(Inst::Bltu { rs1, rs2, imm });
                round_trip(Inst::Bgeu { rs1, rs2, imm });
            }
        }
    }
    for rd in [0usize, 1, 31] {
        for imm in [-0x10_0000i64, -2, 0, 2, 0x800, 0xf_f000, 0xf_fffe] {
            round_trip(Inst::Jal { rd, imm });
        }
        for imm in [-0x8000_0000i64, -4096, 0, 4096, 0x1234_5000, 0x7fff_f000] {
            round_trip(Inst::Lui { rd, imm });
            round_trip(Inst::Auipc { rd, imm });
        }
    }
}

#[test]
fn encode_then_decode_system_forms() {
    round_trip(Inst::Ecall);
    round_trip(Inst::Ebreak);
    round_trip(Inst::Sret);
    round_trip(Inst::Mret);
    round_trip(Inst::Sfencevma);
    for rd in [0usize, 5, 31] {
        for rs1 in [0usize, 6, 31] {
            for csr in [0usize, 1, 0x102, 0x300, 0x302, 0x344, 0xfff] {
                round_trip(Inst::Csrrw { rd, rs1, csr });
                round_trip(Inst::Csrrs { rd, rs1, csr });
                round_trip(Inst::Csrrc { rd, rs1, csr });
                round_trip(Inst::Csrrwi { rd, uimm: rs1 as u64, csr });
                round_trip(Inst::Csrrsi { rd, uimm: rs1 as u64, csr });
                round_trip(Inst::Csrrci { rd, uimm: rs1 as u64, csr });
            }
        }
    }
}

#[test]
fn encode_then_decode_atomic_forms() {
    for rd in [0usize, 10, 31] {
        for rs1 in [0usize, 12, 31] {
            for (aq, rl) in [(false, false), (false, true), (true, false), (true, true)] {
                round_trip(Inst::Lrw { rd, rs1, aq, rl });
                round_trip(Inst::Lrd { rd, rs1, aq, rl });
                for rs2 in [0usize, 11, 31] {
                    round_trip(Inst::Scw { rd, rs1, rs2, aq, rl });
                    round_trip(Inst::Scd { rd, rs1, rs2, aq, rl });
                    round_trip(Inst::Amoswapw { rd, rs1, rs2, aq, rl });
                    round_trip(Inst::Amoaddw { rd, rs1, rs2, aq, rl });
                    round_trip(Inst::Amoxorw { rd, rs1, rs2, aq, rl });
                    round_trip(Inst::Amoandw { rd, rs1, rs2, aq, rl });
                    round_trip(Inst::Amoorw { rd, rs1, rs2, aq, rl });
                    round_trip(Inst::Amominw { rd, rs1, rs2, aq, rl });
                    round_trip(Inst::Amomaxw { rd, rs1, rs2, aq, rl });
                    round_trip(Inst::Amominuw { rd, rs1, rs2, aq, rl });
                    round_trip(Inst::Amomaxuw { rd, rs1, rs2, aq, rl });
                    round_trip(Inst::Amoswapd { rd, rs1, rs2, aq, rl });
                    round_trip(Inst::Amoaddd { rd, rs1, rs2, aq, rl });
                    round_trip(Inst::Amoxord { rd, rs1, rs2, aq, rl });
                    round_trip(Inst::Amoandd { rd, rs1, rs2, aq, rl });
                    round_trip(Inst::Amoord { rd, rs1, rs2, aq, rl });
                    round_trip(Inst::Amomind { rd, rs1, rs2, aq, rl });
                    round_trip(Inst::Amomaxd { rd, rs1, rs2, aq, rl });
                    round_trip(Inst::Amominud { rd, rs1, rs2, aq, rl });
                    round_trip(Inst::Amomaxud { rd, rs1, rs2, aq, rl });
                }
            }
        }
    }
}

#[test]
fn decode_then_encode_gives_the_word_back() {
    for word in [
        0x0105053bu32, 0xfae7d4e3, 0x00500513, 0x40315093, 0x00813503, 0x00532023, 0x12345537,
        0x008000ef, 0x30200073, 0x30529073, 0x1005252f, 0x06b6352f, 0x02b5653b, 0x0ff0000f,
    ] {
        let inst = Cpu::decode(word).unwrap();
        assert_eq!(inst.encode(), word);
    }
}
