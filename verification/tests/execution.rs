use rrv64g::bus::{Bus, RAM_BASE, UART_BASE};
use rrv64g::cpu::{Cpu, MACHINE, SUPERVISOR, USER};
use rrv64g::csrs::{
    MASK_MIE, MASK_MPIE, MASK_MPP, MASK_MPRV, MASK_MTIP, MASK_SEIP, MASK_SIE, MASK_SPIE, MASK_SPP,
    MCAUSE, MEDELEG, MEPC, MIDELEG, MIE, MIP, MSTATUS, MTVAL, MTVEC, SCAUSE, SEPC, SSTATUS, STVAL,
    STVEC,
};
use rrv64g::exceptions::Exception;
use rrv64g::inst::Inst;
use rrv64g::interrupt::Interrupt;
use rrv64g::ram::Ram;
use rrv64g::vm::VM;

const RAM_LEN: u64 = 0x1000;

fn image(program: &[Inst]) -> Vec<u8> {
    let mut bytes = Vec::new();
    for inst in program {
        bytes.extend_from_slice(&inst.encode().to_le_bytes());
    }
    bytes.resize(RAM_LEN as usize, 0);
    bytes
}

fn machine(program: &[Inst]) -> VM<Ram> {
    VM::new(Ram::new(image(program)), RAM_LEN)
}

/// Runs one instruction on a hart with the given registers and returns the hart.
fn run(inst: Inst, regs: &[(usize, u64)]) -> VM<Ram> {
    let mut vm = machine(&[inst]);
    for (r, v) in regs {
        vm.cpu.x[*r] = *v;
    }
    assert_eq!(vm.cpu.tick(&mut vm.bus), Ok(inst));
    vm
}

#[test]
fn integer_arithmetic() {
    let code = vec![
        0x13, 0x08, 0x50, 0x00, // addi x16, x0, 5 => mv 5 to x16
    ];

    let mut vm = VM::new(Ram::new(code), 4);

    let e = vm.tick(None);

    println!("{:?}", e);

    assert!(vm.cpu.x[16] == 5, "Addi fail");
}

#[test]
fn minimal_arithmetic() {
    let mut bytes = vec![0x13, 0x05, 0x50, 0x00];
    bytes.resize(RAM_LEN as usize, 0);
    let mut vm = VM::new(Ram::new(bytes), RAM_LEN);
    assert_eq!(vm.cpu.pc, RAM_BASE);
    assert_eq!(vm.cpu.mode, MACHINE);
    assert_eq!(vm.cpu.x[2], RAM_BASE + RAM_LEN);
    assert_eq!(vm.tick(None), Ok(None));
    assert_eq!(vm.cpu.x[10], 5);
    assert_eq!(vm.cpu.pc, 0x8000_0004);
}

#[test]
fn load_store_round_trip() {
    let mut vm = machine(&[
        Inst::Addi { rd: 5, rs1: 0, imm: 0x42 },
        Inst::Sw { rs1: 6, rs2: 5, imm: 0 },
    ]);
    vm.cpu.x[6] = RAM_BASE + 0x100;
    assert_eq!(vm.tick(None), Ok(None));
    assert_eq!(vm.tick(None), Ok(None));
    assert_eq!(vm.bus.load(RAM_BASE + 0x100, 32), Ok(0x42));
    assert_eq!(vm.cpu.pc, RAM_BASE + 8);
}

#[test]
fn taken_branch() {
    // The branch lies at RAM_BASE + 4 and jumps 8 ahead of itself.
    let mut vm = machine(&[
        Inst::Addi { rd: 1, rs1: 0, imm: 1 },
        Inst::Beq { rs1: 1, rs2: 1, imm: 8 },
    ]);
    assert_eq!(vm.tick(None), Ok(None));
    assert_eq!(vm.cpu.pc, RAM_BASE + 0x4);
    assert_eq!(vm.tick(None), Ok(None));
    assert_eq!(vm.cpu.pc, RAM_BASE + 0xc);
}

#[test]
fn taken_branch_at_offset_eight() {
    // The branch lies at RAM_BASE + 8 and jumps 8 ahead of itself.
    let mut vm = machine(&[
        Inst::Addi { rd: 1, rs1: 0, imm: 1 },
        Inst::Addi { rd: 0, rs1: 0, imm: 0 },
        Inst::Beq { rs1: 1, rs2: 1, imm: 8 },
    ]);
    assert_eq!(vm.tick(None), Ok(None));
    assert_eq!(vm.tick(None), Ok(None));
    assert_eq!(vm.tick(None), Ok(None));
    assert_eq!(vm.cpu.pc, RAM_BASE + 0x10);
}

#[test]
fn ecall_trap() {
    let mut vm = machine(&[Inst::Ecall]);
    vm.cpu.csr[MTVEC] = RAM_BASE + 0x100;
    assert_eq!(vm.tick(None), Ok(None));
    assert_eq!(vm.cpu.csr[MCAUSE], 11);
    assert_eq!(vm.cpu.csr[MEPC], RAM_BASE);
    assert_eq!(vm.cpu.csr[MTVAL], 0);
    assert_eq!(vm.cpu.pc, RAM_BASE + 0x100);
    assert_eq!((vm.cpu.csr[MSTATUS] & MASK_MPP) >> 11, 3);
    assert_eq!(vm.cpu.mode, MACHINE);
}

#[test]
fn uart_echo() {
    let mut vm = machine(&[
        Inst::Sb { rs1: 6, rs2: 5, imm: 0 },
        Inst::Addi { rd: 0, rs1: 0, imm: 0 },
        Inst::Addi { rd: 0, rs1: 0, imm: 0 },
    ]);
    vm.cpu.x[5] = 'H' as u64;
    vm.cpu.x[6] = UART_BASE;
    vm.cpu.csr[MTVEC] = RAM_BASE + 0x200;
    vm.cpu.csr[MSTATUS] = MASK_MIE;
    vm.cpu.csr[MIE] = MASK_SEIP;
    assert_eq!(vm.tick(None), Ok(Some('H')));
    // The byte arrives at the end of this tick; nothing is sent.
    assert_eq!(vm.tick(Some('i')), Ok(None));
    assert_eq!(vm.cpu.pc, RAM_BASE + 8);
    assert_eq!(vm.cpu.csr[MIP] & MASK_SEIP, 0);
    // The next tick takes the supervisor external interrupt.
    assert_eq!(vm.tick(None), Ok(None));
    assert_eq!(vm.cpu.pc, RAM_BASE + 0x200);
    assert_eq!(vm.cpu.csr[MCAUSE], 0x8000_0000_0000_0009);
    assert_eq!(vm.cpu.csr[MEPC], RAM_BASE + 12);
    assert_eq!(vm.cpu.csr[MIP] & MASK_SEIP, 0);
    assert_eq!(vm.cpu.csr[MSTATUS] & MASK_MIE, 0);
    assert_eq!(vm.cpu.csr[MSTATUS] & MASK_MPIE, MASK_MPIE);
    // The guest reads the byte and the claim.
    assert_eq!(vm.bus.load(0x0c20_1004, 32), Ok(10));
    assert_eq!(vm.bus.load(UART_BASE + 5, 8), Ok(0x21));
    assert_eq!(vm.bus.load(UART_BASE, 8), Ok('i' as u64));
    assert_eq!(vm.bus.load(UART_BASE + 5, 8), Ok(0x20));
}

#[test]
fn uart_interrupt_waits_while_disabled() {
    let mut vm = machine(&[Inst::Addi { rd: 0, rs1: 0, imm: 0 }; 4]);
    vm.cpu.csr[MTVEC] = RAM_BASE + 0x200;
    vm.cpu.csr[MIE] = MASK_SEIP;
    assert_eq!(vm.tick(Some('i')), Ok(None));
    assert_eq!(vm.tick(None), Ok(None));
    assert_eq!(vm.cpu.pc, RAM_BASE + 8);
    vm.cpu.csr[MSTATUS] = MASK_MIE;
    assert_eq!(vm.tick(None), Ok(None));
    assert_eq!(vm.cpu.pc, RAM_BASE + 0x200);
    assert_eq!(vm.cpu.csr[MEPC], RAM_BASE + 12);
}

#[test]
fn mret_round_trip() {
    let mut program = vec![Inst::Ecall];
    program.resize(0x40, Inst::Addi { rd: 0, rs1: 0, imm: 0 });
    program.push(Inst::Mret);
    let mut vm = machine(&program);
    vm.cpu.csr[MTVEC] = RAM_BASE + 0x100;
    vm.cpu.csr[MSTATUS] = MASK_MIE | MASK_MPRV;
    assert_eq!(vm.tick(None), Ok(None));
    assert_eq!(vm.cpu.pc, RAM_BASE + 0x100);
    assert_eq!(vm.cpu.csr[MSTATUS] & MASK_MIE, 0);
    assert_eq!(vm.cpu.csr[MSTATUS] & MASK_MPIE, MASK_MPIE);
    let mepc = vm.cpu.csr[MEPC];
    let mpp = (vm.cpu.csr[MSTATUS] & MASK_MPP) >> 11;
    assert_eq!(vm.tick(None), Ok(None));
    assert_eq!(vm.cpu.pc, mepc & !3);
    assert_eq!(vm.cpu.pc, RAM_BASE);
    assert_eq!(vm.cpu.mode, mpp);
    assert_eq!(vm.cpu.mode, MACHINE);
    assert_eq!(vm.cpu.csr[MSTATUS] & MASK_MIE, MASK_MIE);
    assert_eq!(vm.cpu.csr[MSTATUS] & MASK_MPIE, MASK_MPIE);
    assert_eq!(vm.cpu.csr[MSTATUS] & MASK_MPP, 0);
    assert_eq!(vm.cpu.csr[MSTATUS] & MASK_MPRV, 0);
}

#[test]
fn mret_clears_low_bits_of_the_return_address() {
    let mut vm = machine(&[Inst::Mret]);
    vm.cpu.csr[MEPC] = RAM_BASE + 0x23;
    vm.cpu.csr[MSTATUS] = 1 << 11;
    assert_eq!(vm.cpu.tick(&mut vm.bus), Ok(Inst::Mret));
    assert_eq!(vm.cpu.pc, RAM_BASE + 0x20);
    assert_eq!(vm.cpu.mode, SUPERVISOR);
    assert_eq!(vm.cpu.csr[MSTATUS], MASK_MPIE);
}

#[test]
fn sret_round_trip() {
    let mut vm = machine(&[Inst::Sret]);
    vm.cpu.mode = SUPERVISOR;
    vm.cpu.csr[SEPC] = RAM_BASE + 0x42;
    vm.cpu.csr[SSTATUS] = MASK_SPIE | MASK_SPP;
    assert_eq!(vm.cpu.tick(&mut vm.bus), Ok(Inst::Sret));
    assert_eq!(vm.cpu.pc, RAM_BASE + 0x40);
    assert_eq!(vm.cpu.mode, SUPERVISOR);
    assert_eq!(vm.cpu.csr[SSTATUS], MASK_SIE | MASK_SPIE);

    let mut vm = machine(&[Inst::Sret]);
    vm.cpu.mode = SUPERVISOR;
    vm.cpu.csr[SEPC] = RAM_BASE + 0x80;
    vm.cpu.csr[SSTATUS] = MASK_SIE;
    assert_eq!(vm.cpu.tick(&mut vm.bus), Ok(Inst::Sret));
    assert_eq!(vm.cpu.pc, RAM_BASE + 0x80);
    assert_eq!(vm.cpu.mode, USER);
    assert_eq!(vm.cpu.csr[SSTATUS], MASK_SPIE);
}

#[test]
fn x0_stays_zero() {
    let mut vm = machine(&[
        Inst::Addi { rd: 0, rs1: 0, imm: 5 },
        Inst::Add { rd: 1, rs1: 0, rs2: 0 },
        Inst::Jal { rd: 0, imm: 4 },
        Inst::Lui { rd: 0, imm: 0x1000 },
    ]);
    vm.cpu.x[0] = 99;
    for _ in 0..4 {
        assert_eq!(vm.tick(None), Ok(None));
        assert_eq!(vm.cpu.x[0], 0);
    }
    assert_eq!(vm.cpu.x[1], 0);
    // A tick that raises an exception zeroes x0 as well.
    let mut vm = machine(&[Inst::Ecall]);
    vm.cpu.x[0] = 99;
    vm.cpu.csr[MTVEC] = RAM_BASE + 0x100;
    assert_eq!(vm.tick(None), Ok(None));
    assert_eq!(vm.cpu.x[0], 0);
}

#[test]
fn pc_advances_by_four() {
    let program = [
        Inst::Addi { rd: 1, rs1: 0, imm: 1 },
        Inst::Lui { rd: 2, imm: 0x1000 },
        Inst::Add { rd: 3, rs1: 1, rs2: 2 },
        Inst::Fence { rd: 0, rs1: 0, imm: 0 },
        Inst::Csrrs { rd: 4, rs1: 0, csr: MSTATUS },
        Inst::Beq { rs1: 1, rs2: 0, imm: 64 },
    ];
    let mut vm = machine(&program);
    for (i, inst) in program.iter().enumerate() {
        assert_eq!(vm.cpu.pc, RAM_BASE + 4 * i as u64);
        assert_eq!(vm.cpu.tick(&mut vm.bus), Ok(*inst));
    }
    assert_eq!(vm.cpu.pc, RAM_BASE + 24);
}

#[test]
fn auipc_uses_the_address_of_the_instruction() {
    let vm = run(Inst::Auipc { rd: 10, imm: 0x1000 }, &[]);
    assert_eq!(vm.cpu.x[10], 0x8000_1000);
    let vm = run(Inst::Auipc { rd: 10, imm: -4096 }, &[]);
    assert_eq!(vm.cpu.x[10], 0x7fff_f000);
    let vm = run(Inst::Lui { rd: 10, imm: -4096 }, &[]);
    assert_eq!(vm.cpu.x[10], 0xffff_ffff_ffff_f000);
}

#[test]
fn jumps_link_to_the_next_instruction() {
    let vm = run(Inst::Jal { rd: 1, imm: 0x40 }, &[]);
    assert_eq!(vm.cpu.x[1], RAM_BASE + 4);
    assert_eq!(vm.cpu.pc, RAM_BASE + 0x40);
    let vm = run(Inst::Jalr { rd: 1, rs1: 5, imm: 3 }, &[(5, RAM_BASE + 0x100)]);
    assert_eq!(vm.cpu.x[1], RAM_BASE + 4);
    assert_eq!(vm.cpu.pc, RAM_BASE + 0x102);
    // The base register is read before the link is written.
    let vm = run(Inst::Jalr { rd: 5, rs1: 5, imm: 0 }, &[(5, RAM_BASE + 0x100)]);
    assert_eq!(vm.cpu.x[5], RAM_BASE + 4);
    assert_eq!(vm.cpu.pc, RAM_BASE + 0x100);
}

#[test]
fn branches_compare_signed_and_unsigned() {
    let minus_one = u64::MAX;
    let taken = RAM_BASE + 0x20;
    let not_taken = RAM_BASE + 4;
    let regs = [(1, minus_one), (2, 1)];
    assert_eq!(run(Inst::Beq { rs1: 1, rs2: 2, imm: 0x20 }, &regs).cpu.pc, not_taken);
    assert_eq!(run(Inst::Bne { rs1: 1, rs2: 2, imm: 0x20 }, &regs).cpu.pc, taken);
    assert_eq!(run(Inst::Blt { rs1: 1, rs2: 2, imm: 0x20 }, &regs).cpu.pc, taken);
    assert_eq!(run(Inst::Bge { rs1: 1, rs2: 2, imm: 0x20 }, &regs).cpu.pc, not_taken);
    assert_eq!(run(Inst::Bltu { rs1: 1, rs2: 2, imm: 0x20 }, &regs).cpu.pc, not_taken);
    assert_eq!(run(Inst::Bgeu { rs1: 1, rs2: 2, imm: 0x20 }, &regs).cpu.pc, taken);
    assert_eq!(run(Inst::Bge { rs1: 2, rs2: 2, imm: 0x20 }, &regs).cpu.pc, taken);
    assert_eq!(run(Inst::Bgeu { rs1: 2, rs2: 2, imm: 0x20 }, &regs).cpu.pc, taken);
    // A backward branch.
    let mut vm = machine(&[
        Inst::Addi { rd: 0, rs1: 0, imm: 0 },
        Inst::Beq { rs1: 0, rs2: 0, imm: -4 },
    ]);
    assert_eq!(vm.tick(None), Ok(None));
    assert_eq!(vm.tick(None), Ok(None));
    assert_eq!(vm.cpu.pc, RAM_BASE);
}

#[test]
fn immediate_arithmetic() {
    let regs = [(1, 0xffff_ffff_ffff_fff0u64)];
    assert_eq!(run(Inst::Addi { rd: 3, rs1: 1, imm: 0x20 }, &regs).cpu.x[3], 0x10);
    assert_eq!(run(Inst::Addi { rd: 3, rs1: 1, imm: -1 }, &regs).cpu.x[3], 0xffff_ffff_ffff_ffef);
    assert_eq!(run(Inst::Slti { rd: 3, rs1: 1, imm: 0 }, &regs).cpu.x[3], 1);
    assert_eq!(run(Inst::Slti { rd: 3, rs1: 1, imm: -17 }, &regs).cpu.x[3], 0);
    assert_eq!(run(Inst::Sltiu { rd: 3, rs1: 1, imm: 0 }, &regs).cpu.x[3], 0);
    assert_eq!(run(Inst::Sltiu { rd: 3, rs1: 1, imm: -1 }, &regs).cpu.x[3], 1);
    assert_eq!(run(Inst::Xori { rd: 3, rs1: 1, imm: -1 }, &regs).cpu.x[3], 0xf);
    assert_eq!(run(Inst::Ori { rd: 3, rs1: 1, imm: 0xf }, &regs).cpu.x[3], u64::MAX);
    assert_eq!(run(Inst::Andi { rd: 3, rs1: 1, imm: 0xff }, &regs).cpu.x[3], 0xf0);
    assert_eq!(
        run(Inst::Addiw { rd: 3, rs1: 1, imm: 0x10 }, &[(1, 0x7fff_fff0)]).cpu.x[3],
        0xffff_ffff_8000_0000
    );
    assert_eq!(run(Inst::Slli { rd: 3, rs1: 1, shamt: 60 }, &[(1, 0xf)]).cpu.x[3], 0xf << 60);
    assert_eq!(run(Inst::Srli { rd: 3, rs1: 1, shamt: 60 }, &regs).cpu.x[3], 0xf);
    assert_eq!(run(Inst::Srai { rd: 3, rs1: 1, shamt: 4 }, &regs).cpu.x[3], u64::MAX);
    assert_eq!(
        run(Inst::Slliw { rd: 3, rs1: 1, shamt: 31 }, &[(1, 1)]).cpu.x[3],
        0xffff_ffff_8000_0000
    );
    assert_eq!(run(Inst::Srliw { rd: 3, rs1: 1, shamt: 4 }, &regs).cpu.x[3], 0x0fff_ffff);
    assert_eq!(run(Inst::Sraiw { rd: 3, rs1: 1, shamt: 4 }, &regs).cpu.x[3], u64::MAX);
}

#[test]
fn register_arithmetic() {
    let regs = [(1, 0xffff_ffff_ffff_fff0u64), (2, 0x44)];
    assert_eq!(run(Inst::Add { rd: 3, rs1: 1, rs2: 2 }, &regs).cpu.x[3], 0x34);
    assert_eq!(run(Inst::Sub { rd: 3, rs1: 2, rs2: 1 }, &regs).cpu.x[3], 0x54);
    // Shift register amounts use the low six bits: 0x44 shifts by 4.
    assert_eq!(run(Inst::Sll { rd: 3, rs1: 1, rs2: 2 }, &regs).cpu.x[3], 0xffff_ffff_ffff_ff00);
    assert_eq!(run(Inst::Srl { rd: 3, rs1: 1, rs2: 2 }, &regs).cpu.x[3], 0x0fff_ffff_ffff_ffff);
    assert_eq!(run(Inst::Sra { rd: 3, rs1: 1, rs2: 2 }, &regs).cpu.x[3], u64::MAX);
    assert_eq!(
        run(Inst::Sll { rd: 3, rs1: 1, rs2: 2 }, &[(1, 1), (2, 40)]).cpu.x[3],
        1 << 40
    );
    assert_eq!(run(Inst::Slt { rd: 3, rs1: 1, rs2: 2 }, &regs).cpu.x[3], 1);
    assert_eq!(run(Inst::Sltu { rd: 3, rs1: 1, rs2: 2 }, &regs).cpu.x[3], 0);
    assert_eq!(run(Inst::Xor { rd: 3, rs1: 1, rs2: 2 }, &regs).cpu.x[3], 0xffff_ffff_ffff_ffb4);
    assert_eq!(run(Inst::Or { rd: 3, rs1: 1, rs2: 2 }, &regs).cpu.x[3], 0xffff_ffff_ffff_fff4);
    assert_eq!(run(Inst::And { rd: 3, rs1: 1, rs2: 2 }, &regs).cpu.x[3], 0x40);
    assert_eq!(run(Inst::Mul { rd: 3, rs1: 1, rs2: 2 }, &regs).cpu.x[3], 0xffff_ffff_ffff_fbc0);
    assert_eq!(run(Inst::Mulh { rd: 3, rs1: 1, rs2: 2 }, &regs).cpu.x[3], u64::MAX);
    assert_eq!(run(Inst::Mulhsu { rd: 3, rs1: 1, rs2: 2 }, &regs).cpu.x[3], u64::MAX);
    assert_eq!(run(Inst::Mulhu { rd: 3, rs1: 1, rs2: 2 }, &regs).cpu.x[3], 0x43);
    assert_eq!(run(Inst::Div { rd: 3, rs1: 1, rs2: 2 }, &regs).cpu.x[3], 0);
    assert_eq!(run(Inst::Div { rd: 3, rs1: 2, rs2: 1 }, &regs).cpu.x[3], (-4i64) as u64);
    assert_eq!(run(Inst::Divu { rd: 3, rs1: 1, rs2: 2 }, &regs).cpu.x[3], 0x03c3_c3c3_c3c3_c3c3);
    assert_eq!(run(Inst::Rem { rd: 3, rs1: 2, rs2: 1 }, &regs).cpu.x[3], 4);
    assert_eq!(run(Inst::Remu { rd: 3, rs1: 1, rs2: 2 }, &regs).cpu.x[3], 0x24);
    assert_eq!(run(Inst::Addw { rd: 3, rs1: 1, rs2: 2 }, &regs).cpu.x[3], 0x34);
    assert_eq!(run(Inst::Subw { rd: 3, rs1: 1, rs2: 2 }, &regs).cpu.x[3], 0xffff_ffff_ffff_ffac);
    assert_eq!(run(Inst::Sllw { rd: 3, rs1: 1, rs2: 2 }, &regs).cpu.x[3], 0xffff_ffff_ffff_ff00);
    assert_eq!(run(Inst::Srlw { rd: 3, rs1: 1, rs2: 2 }, &regs).cpu.x[3], 0x0fff_ffff);
    assert_eq!(run(Inst::Sraw { rd: 3, rs1: 1, rs2: 2 }, &regs).cpu.x[3], u64::MAX);
    assert_eq!(run(Inst::Mulw { rd: 3, rs1: 1, rs2: 2 }, &regs).cpu.x[3], 0xffff_ffff_ffff_fbc0);
    assert_eq!(run(Inst::Divw { rd: 3, rs1: 2, rs2: 1 }, &regs).cpu.x[3], (-4i64) as u64);
    assert_eq!(run(Inst::Divuw { rd: 3, rs1: 1, rs2: 2 }, &regs).cpu.x[3], 0x03c3_c3c3);
    assert_eq!(run(Inst::Remw { rd: 3, rs1: 2, rs2: 1 }, &regs).cpu.x[3], 4);
    assert_eq!(run(Inst::Remuw { rd: 3, rs1: 1, rs2: 2 }, &regs).cpu.x[3], 0x24);
}

#[test]
fn division_instructions_at_the_boundaries() {
    let int_min = 0x8000_0000_0000_0000u64;
    let regs = [(1, int_min), (2, u64::MAX), (3, 0)];
    assert_eq!(run(Inst::Div { rd: 5, rs1: 1, rs2: 2 }, &regs).cpu.x[5], int_min);
    assert_eq!(run(Inst::Rem { rd: 5, rs1: 1, rs2: 2 }, &regs).cpu.x[5], 0);
    assert_eq!(run(Inst::Div { rd: 5, rs1: 1, rs2: 3 }, &regs).cpu.x[5], u64::MAX);
    assert_eq!(run(Inst::Divu { rd: 5, rs1: 1, rs2: 3 }, &regs).cpu.x[5], u64::MAX);
    assert_eq!(run(Inst::Rem { rd: 5, rs1: 1, rs2: 3 }, &regs).cpu.x[5], int_min);
    assert_eq!(run(Inst::Remu { rd: 5, rs1: 1, rs2: 3 }, &regs).cpu.x[5], int_min);
}

#[test]
fn loads_extend() {
    let mut vm = machine(&[
        Inst::Lb { rd: 10, rs1: 6, imm: 0 },
        Inst::Lbu { rd: 11, rs1: 6, imm: 0 },
        Inst::Lh { rd: 12, rs1: 6, imm: 0 },
        Inst::Lhu { rd: 13, rs1: 6, imm: 0 },
        Inst::Lw { rd: 14, rs1: 6, imm: 0 },
        Inst::Lwu { rd: 15, rs1: 6, imm: 0 },
        Inst::Ld { rd: 16, rs1: 6, imm: 0 },
        Inst::Ld { rd: 17, rs1: 6, imm: -8 },
    ]);
    vm.cpu.x[6] = RAM_BASE + 0x100;
    assert_eq!(vm.bus.store(RAM_BASE + 0x100, 0x8899_aabb_ccdd_eeff, 64), Ok(()));
    assert_eq!(vm.bus.store(RAM_BASE + 0xf8, 0x0102_0304_0506_0708, 64), Ok(()));
    for _ in 0..8 {
        assert_eq!(vm.tick(None), Ok(None));
    }
    assert_eq!(vm.cpu.x[10], 0xffff_ffff_ffff_ffff);
    assert_eq!(vm.cpu.x[11], 0xff);
    assert_eq!(vm.cpu.x[12], 0xffff_ffff_ffff_eeff);
    assert_eq!(vm.cpu.x[13], 0xeeff);
    assert_eq!(vm.cpu.x[14], 0xffff_ffff_ccdd_eeff);
    assert_eq!(vm.cpu.x[15], 0xccdd_eeff);
    assert_eq!(vm.cpu.x[16], 0x8899_aabb_ccdd_eeff);
    assert_eq!(vm.cpu.x[17], 0x0102_0304_0506_0708);
}

#[test]
fn stores_write_the_low_bits() {
    let mut vm = machine(&[
        Inst::Sd { rs1: 6, rs2: 0, imm: 0 },
        Inst::Sb { rs1: 6, rs2: 5, imm: 0 },
        Inst::Sh { rs1: 6, rs2: 5, imm: 2 },
        Inst::Sw { rs1: 6, rs2: 5, imm: 4 },
        Inst::Sd { rs1: 6, rs2: 5, imm: 8 },
    ]);
    vm.cpu.x[5] = 0x1122_3344_5566_7788;
    vm.cpu.x[6] = RAM_BASE + 0x100;
    for _ in 0..5 {
        assert_eq!(vm.tick(None), Ok(None));
    }
    assert_eq!(vm.bus.load(RAM_BASE + 0x100, 64), Ok(0x5566_7788_7788_0088));
    assert_eq!(vm.bus.load(RAM_BASE + 0x108, 64), Ok(0x1122_3344_5566_7788));
    assert_eq!(vm.bus.load(RAM_BASE + 0x101, 8), Ok(0));
}

#[test]
fn load_fault_traps_with_the_address() {
    let mut vm = machine(&[Inst::Ld { rd: 10, rs1: 6, imm: 0 }]);
    vm.cpu.x[6] = 0x4000;
    vm.cpu.x[10] = 77;
    vm.cpu.csr[MTVEC] = RAM_BASE + 0x100;
    assert_eq!(vm.cpu.tick(&mut vm.bus), Err(Exception::LoadAccessFault(0x4000)));
    assert_eq!(vm.cpu.pc, RAM_BASE);
    assert_eq!(vm.cpu.x[10], 77);
    vm.cpu.handle_exception(Exception::LoadAccessFault(0x4000));
    assert_eq!(vm.cpu.csr[MCAUSE], 5);
    assert_eq!(vm.cpu.csr[MTVAL], 0x4000);
    assert_eq!(vm.cpu.csr[MEPC], RAM_BASE);
    assert_eq!(vm.cpu.pc, RAM_BASE + 0x100);
}

#[test]
fn store_fault_traps_with_the_address() {
    let mut vm = machine(&[Inst::Sd { rs1: 6, rs2: 5, imm: 8 }]);
    vm.cpu.x[6] = RAM_BASE + RAM_LEN - 8;
    vm.cpu.csr[MTVEC] = RAM_BASE + 0x100;
    assert_eq!(vm.tick(None), Ok(None));
    assert_eq!(vm.cpu.csr[MCAUSE], 7);
    assert_eq!(vm.cpu.csr[MTVAL], RAM_BASE + RAM_LEN);
    assert_eq!(vm.cpu.csr[MEPC], RAM_BASE);
    assert_eq!(vm.cpu.pc, RAM_BASE + 0x100);
}

#[test]
fn illegal_instruction_traps_with_the_word() {
    let mut bytes = vec![0xff, 0xff, 0xff, 0xff];
    bytes.resize(RAM_LEN as usize, 0);
    let mut vm = VM::new(Ram::new(bytes), RAM_LEN);
    vm.cpu.csr[MTVEC] = RAM_BASE + 0x100;
    assert_eq!(vm.cpu.tick(&mut vm.bus), Err(Exception::IllegalInstruction(0xffff_ffff)));
    assert_eq!(vm.cpu.pc, RAM_BASE);
    assert_eq!(vm.tick(None), Ok(None));
    assert_eq!(vm.cpu.csr[MCAUSE], 2);
    assert_eq!(vm.cpu.csr[MTVAL], 0xffff_ffff);
    assert_eq!(vm.cpu.pc, RAM_BASE + 0x100);
}

#[test]
fn breakpoint_traps_with_its_address() {
    let mut vm = machine(&[Inst::Addi { rd: 0, rs1: 0, imm: 0 }, Inst::Ebreak]);
    vm.cpu.csr[MTVEC] = RAM_BASE + 0x100;
    assert_eq!(vm.tick(None), Ok(None));
    assert_eq!(vm.cpu.tick(&mut vm.bus), Err(Exception::Breakpoint(RAM_BASE + 4)));
    assert_eq!(vm.tick(None), Ok(None));
    assert_eq!(vm.cpu.csr[MCAUSE], 3);
    assert_eq!(vm.cpu.csr[MTVAL], RAM_BASE + 4);
    assert_eq!(vm.cpu.csr[MEPC], RAM_BASE + 4);
}

#[test]
fn misaligned_fetch() {
    let mut vm = machine(&[Inst::Addi { rd: 1, rs1: 0, imm: 1 }]);
    vm.cpu.pc = RAM_BASE + 2;
    vm.cpu.csr[MTVEC] = RAM_BASE + 0x100;
    assert_eq!(vm.cpu.tick(&mut vm.bus), Err(Exception::InstructionAddressMisaligned));
    assert_eq!(vm.cpu.pc, RAM_BASE + 2);
    assert_eq!(vm.cpu.fetch(&mut vm.bus), Err(Exception::InstructionAddressMisaligned));
    assert_eq!(vm.tick(None), Ok(None));
    assert_eq!(vm.cpu.csr[MCAUSE], 0);
    assert_eq!(vm.cpu.csr[MEPC], RAM_BASE + 2);
    assert_eq!(vm.cpu.csr[MTVAL], 0);
    assert_eq!(vm.cpu.pc, RAM_BASE + 0x100);
}

#[test]
fn fetch_outside_memory_faults() {
    let mut vm = machine(&[]);
    vm.cpu.pc = 0x4000;
    vm.cpu.csr[MTVEC] = RAM_BASE + 0x100;
    assert_eq!(vm.cpu.fetch(&mut vm.bus), Err(Exception::LoadAccessFault(0x4000)));
    assert_eq!(vm.cpu.pc, 0x4000);
    assert_eq!(vm.tick(None), Ok(None));
    assert_eq!(vm.cpu.csr[MCAUSE], 5);
    assert_eq!(vm.cpu.csr[MEPC], 0x4000);
}

#[test]
fn fetch_and_execute_by_hand() {
    let mut vm = machine(&[Inst::Addi { rd: 7, rs1: 0, imm: 9 }]);
    let word = vm.cpu.fetch(&mut vm.bus);
    assert_eq!(word, Ok(0x00900393));
    assert_eq!(vm.cpu.pc, RAM_BASE + 4);
    assert_eq!(vm.cpu.execute(0x00900393, &mut vm.bus), Ok(Inst::Addi { rd: 7, rs1: 0, imm: 9 }));
    assert_eq!(vm.cpu.x[7], 9);
    assert_eq!(vm.cpu.pc, RAM_BASE + 4);
    assert_eq!(vm.cpu.execute(0, &mut vm.bus), Err(Exception::IllegalInstruction(0)));
}

#[test]
fn untrapped_exception_ends_the_run() {
    // No handler is set up: the trap vector is zero, and the hart arrives there.
    let mut vm = machine(&[Inst::Ecall]);
    assert_eq!(vm.tick(None), Err(Exception::Breakpoint(0)));
    assert_eq!(vm.cpu.pc, 0);
    assert_eq!(vm.cpu.csr[MCAUSE], 11);
}

#[test]
fn environment_call_depends_on_the_mode() {
    for (mode, e, code) in [
        (USER, Exception::EnvironmentCallFromUMode, 8),
        (SUPERVISOR, Exception::EnvironmentCallFromSMode, 9),
        (MACHINE, Exception::EnvironmentCallFromMMode, 11),
    ] {
        let mut vm = machine(&[Inst::Ecall]);
        vm.cpu.mode = mode;
        vm.cpu.csr[MTVEC] = RAM_BASE + 0x100;
        assert_eq!(vm.cpu.tick(&mut vm.bus), Err(e));
        assert_eq!(vm.tick(None), Ok(None));
        assert_eq!(vm.cpu.csr[MCAUSE], code);
        assert_eq!((vm.cpu.csr[MSTATUS] & MASK_MPP) >> 11, mode);
        assert_eq!(vm.cpu.mode, MACHINE);
    }
}

#[test]
fn delegated_exception_is_taken_in_supervisor_mode() {
    let mut vm = machine(&[Inst::Ecall]);
    vm.cpu.mode = USER;
    vm.cpu.csr[MEDELEG] = 1 << 8;
    vm.cpu.csr[STVEC] = RAM_BASE + 0x201;
    vm.cpu.csr[MTVEC] = RAM_BASE + 0x100;
    vm.cpu.csr[SSTATUS] = MASK_SIE;
    assert_eq!(vm.tick(None), Ok(None));
    assert_eq!(vm.cpu.mode, SUPERVISOR);
    assert_eq!(vm.cpu.pc, RAM_BASE + 0x200);
    assert_eq!(vm.cpu.csr[SCAUSE], 8);
    assert_eq!(vm.cpu.csr[SEPC], RAM_BASE);
    assert_eq!(vm.cpu.csr[STVAL], 0);
    assert_eq!(vm.cpu.csr[SSTATUS], MASK_SPIE);
    assert_eq!(vm.cpu.csr[MCAUSE], 0);

    // From supervisor mode the previous privilege is recorded.
    let mut cpu = Cpu::new();
    cpu.mode = SUPERVISOR;
    cpu.pc = 0x1234;
    cpu.csr[MEDELEG] = 1 << 2;
    cpu.csr[STVEC] = 0x8000;
    cpu.handle_exception(Exception::IllegalInstruction(0xdead));
    assert_eq!(cpu.mode, SUPERVISOR);
    assert_eq!(cpu.csr[SSTATUS], MASK_SPP);
    assert_eq!(cpu.csr[STVAL], 0xdead);
    assert_eq!(cpu.csr[SEPC], 0x1234);
    assert_eq!(cpu.pc, 0x8000);

    // Machine mode never delegates.
    let mut cpu = Cpu::new();
    cpu.csr[MEDELEG] = u64::MAX;
    cpu.csr[MTVEC] = 0x4000;
    cpu.handle_exception(Exception::Breakpoint(8));
    assert_eq!(cpu.mode, MACHINE);
    assert_eq!(cpu.csr[MCAUSE], 3);
    assert_eq!(cpu.pc, 0x4000);
}

#[test]
fn interrupt_entry_direct_and_vectored() {
    let mut cpu = Cpu::new();
    cpu.pc = 0x8000_0010;
    cpu.csr[MTVEC] = 0x8000_0400;
    cpu.csr[MSTATUS] = MASK_MIE;
    cpu.handle_interrupt(Interrupt::MachineTimerInterrupt);
    assert_eq!(cpu.pc, 0x8000_0400);
    assert_eq!(cpu.csr[MCAUSE], 0x8000_0000_0000_0007);
    assert_eq!(cpu.csr[MEPC], 0x8000_0010);
    assert_eq!(cpu.csr[MTVAL], 0);
    assert_eq!(cpu.csr[MSTATUS], MASK_MPIE | MASK_MPP);

    let mut cpu = Cpu::new();
    cpu.csr[MTVEC] = 0x8000_0401;
    cpu.handle_interrupt(Interrupt::MachineTimerInterrupt);
    assert_eq!(cpu.pc, 0x8000_0400 + 4 * 7);
    cpu.csr[MTVEC] = 0x8000_0401;
    cpu.handle_interrupt(Interrupt::MachineExternalInterrupt);
    assert_eq!(cpu.pc, 0x8000_0400 + 4 * 11);

    // Delegated to supervisor mode.
    let mut cpu = Cpu::new();
    cpu.mode = USER;
    cpu.pc = 0x8000_0020;
    cpu.csr[MIDELEG] = 1 << 9;
    cpu.csr[STVEC] = 0x8000_0801;
    cpu.csr[SSTATUS] = MASK_SIE;
    cpu.handle_interrupt(Interrupt::SupervisorExternalInterrupt);
    assert_eq!(cpu.mode, SUPERVISOR);
    assert_eq!(cpu.pc, 0x8000_0800 + 4 * 9);
    assert_eq!(cpu.csr[SCAUSE], 0x8000_0000_0000_0009);
    assert_eq!(cpu.csr[SEPC], 0x8000_0020);
    assert_eq!(cpu.csr[SSTATUS], MASK_SPIE);
}

#[test]
fn pending_interrupts_are_taken_in_priority_order() {
    let order = [
        (0x800u64, Interrupt::MachineExternalInterrupt),
        (0x008, Interrupt::MachineSoftwareInterrupt),
        (0x080, Interrupt::MachineTimerInterrupt),
        (0x200, Interrupt::SupervisorExternalInterrupt),
        (0x020, Interrupt::SupervisorTimerInterrupt),
        (0x002, Interrupt::SupervisorSoftwareInterrupt),
    ];
    let mut bus = Bus::new(Ram::new(vec![0; 16]), 16);
    let mut cpu = Cpu::new();
    cpu.csr[MSTATUS] = MASK_MIE;
    cpu.csr[MIE] = 0xaaa;
    cpu.csr[MIP] = 0xaaa;
    let mut left = 0xaaau64;
    for (mask, interrupt) in order {
        assert_eq!(cpu.check_pending_interrupt(&mut bus), Ok(Some(interrupt)));
        left &= !mask;
        assert_eq!(cpu.csr[MIP], left);
    }
    assert_eq!(cpu.check_pending_interrupt(&mut bus), Ok(None));
    // Pending but not enabled.
    cpu.csr[MIP] = 0x080;
    cpu.csr[MIE] = 0x800;
    assert_eq!(cpu.check_pending_interrupt(&mut bus), Ok(None));
    assert_eq!(cpu.csr[MIP], 0x080);
}

#[test]
fn masked_interrupts_are_not_looked_at() {
    let mut bus = Bus::new(Ram::new(vec![0; 16]), 16);
    let mut cpu = Cpu::new();
    cpu.csr[MIE] = 0xaaa;
    cpu.csr[MIP] = 0xaaa;
    assert_eq!(bus.uart.tick(Some('x')), None);
    // Machine mode, machine interrupts disabled.
    assert_eq!(cpu.check_pending_interrupt(&mut bus), Ok(None));
    assert_eq!(cpu.csr[MIP], 0xaaa);
    // Supervisor mode, supervisor interrupts disabled.
    cpu.mode = SUPERVISOR;
    cpu.csr[MSTATUS] = MASK_MIE;
    assert_eq!(cpu.check_pending_interrupt(&mut bus), Ok(None));
    assert_eq!(cpu.csr[MIP], 0xaaa);
    // The serial port's edge is still there once interrupts are enabled.
    cpu.csr[MIP] = 0;
    cpu.csr[SSTATUS] = MASK_SIE;
    assert_eq!(
        cpu.check_pending_interrupt(&mut bus),
        Ok(Some(Interrupt::SupervisorExternalInterrupt))
    );
    assert_eq!(bus.plic.sclaim, 10);
    assert_eq!(cpu.check_pending_interrupt(&mut bus), Ok(None));
    // User mode is never masked.
    cpu.mode = USER;
    cpu.csr[MSTATUS] = 0;
    cpu.csr[SSTATUS] = 0;
    cpu.csr[MIP] = 0x080;
    assert_eq!(cpu.check_pending_interrupt(&mut bus), Ok(Some(Interrupt::MachineTimerInterrupt)));
}

#[test]
fn timer_interrupt() {
    let mut vm = machine(&[Inst::Addi { rd: 0, rs1: 0, imm: 0 }; 8]);
    vm.cpu.csr[MTVEC] = RAM_BASE + 0x300;
    vm.cpu.csr[MSTATUS] = MASK_MIE;
    vm.cpu.csr[MIE] = MASK_MTIP;
    assert_eq!(vm.bus.store(0x0200_4000, 3, 64), Ok(()));
    assert_eq!(vm.tick(None), Ok(None));
    assert_eq!(vm.tick(None), Ok(None));
    assert_eq!(vm.bus.load(0x0200_bff8, 64), Ok(2));
    assert_eq!(vm.cpu.pc, RAM_BASE + 8);
    assert_eq!(vm.tick(None), Ok(None));
    assert_eq!(vm.bus.load(0x0200_bff8, 64), Ok(3));
    assert_eq!(vm.cpu.pc, RAM_BASE + 0x300);
    assert_eq!(vm.cpu.csr[MCAUSE], 0x8000_0000_0000_0007);
    assert_eq!(vm.cpu.csr[MEPC], RAM_BASE + 12);
}

#[test]
fn timer_with_zero_compare_never_fires() {
    let mut vm = machine(&[Inst::Addi { rd: 0, rs1: 0, imm: 0 }; 8]);
    vm.cpu.csr[MSTATUS] = MASK_MIE;
    vm.cpu.csr[MIE] = MASK_MTIP;
    for _ in 0..4 {
        assert_eq!(vm.tick(None), Ok(None));
    }
    assert_eq!(vm.cpu.pc, RAM_BASE + 16);
    assert_eq!(vm.cpu.csr[MIP], 0);
    assert_eq!(vm.bus.load(0x0200_bff8, 64), Ok(4));
}

#[test]
fn status_register_instructions() {
    let regs = [(5, 0xf0f0u64)];
    let mut vm = machine(&[Inst::Csrrw { rd: 10, rs1: 5, csr: 0x340 }]);
    vm.cpu.x[5] = 0xf0f0;
    vm.cpu.csr[0x340] = 0x1234;
    assert_eq!(vm.tick(None), Ok(None));
    assert_eq!(vm.cpu.x[10], 0x1234);
    assert_eq!(vm.cpu.csr[0x340], 0xf0f0);

    // Source and destination the same register: the two values swap.
    let mut vm = machine(&[Inst::Csrrw { rd: 5, rs1: 5, csr: 0x340 }]);
    vm.cpu.x[5] = 0xf0f0;
    vm.cpu.csr[0x340] = 0x1234;
    assert_eq!(vm.tick(None), Ok(None));
    assert_eq!(vm.cpu.x[5], 0x1234);
    assert_eq!(vm.cpu.csr[0x340], 0xf0f0);

    let mut vm = machine(&[
        Inst::Csrrs { rd: 10, rs1: 5, csr: 0x340 },
        Inst::Csrrc { rd: 11, rs1: 6, csr: 0x340 },
        Inst::Csrrs { rd: 12, rs1: 0, csr: 0x340 },
        Inst::Csrrwi { rd: 13, uimm: 31, csr: 0x340 },
        Inst::Csrrsi { rd: 14, uimm: 0, csr: 0x340 },
        Inst::Csrrci { rd: 15, uimm: 5, csr: 0x340 },
        Inst::Csrrw { rd: 0, rs1: 0, csr: 0x340 },
    ]);
    vm.cpu.x[5] = regs[0].1;
    vm.cpu.x[6] = 0x00ff;
    vm.cpu.csr[0x340] = 0x0f0f;
    for _ in 0..3 {
        assert_eq!(vm.tick(None), Ok(None));
    }
    assert_eq!(vm.cpu.x[10], 0x0f0f);
    assert_eq!(vm.cpu.x[11], 0xffff);
    assert_eq!(vm.cpu.x[12], 0xff00);
    assert_eq!(vm.cpu.csr[0x340], 0xff00);
    for _ in 0..3 {
        assert_eq!(vm.tick(None), Ok(None));
    }
    assert_eq!(vm.cpu.x[13], 0xff00);
    assert_eq!(vm.cpu.x[14], 31);
    assert_eq!(vm.cpu.x[15], 31);
    assert_eq!(vm.cpu.csr[0x340], 26);
    assert_eq!(vm.tick(None), Ok(None));
    assert_eq!(vm.cpu.csr[0x340], 0);
    assert_eq!(vm.cpu.x[0], 0);
}

#[test]
fn load_reserved_and_store_conditional() {
    let a = RAM_BASE + 0x100;
    let mut vm = machine(&[
        Inst::Lrw { rd: 10, rs1: 6, aq: false, rl: false },
        Inst::Scw { rd: 11, rs1: 6, rs2: 5, aq: false, rl: false },
        Inst::Scw { rd: 12, rs1: 6, rs2: 0, aq: false, rl: false },
        Inst::Lrd { rd: 13, rs1: 6, aq: true, rl: true },
        Inst::Scd { rd: 14, rs1: 7, rs2: 0, aq: false, rl: false },
        Inst::Lrd { rd: 15, rs1: 6, aq: false, rl: false },
        Inst::Sb { rs1: 7, rs2: 0, imm: 0 },
        Inst::Scd { rd: 16, rs1: 6, rs2: 0, aq: false, rl: false },
    ]);
    vm.cpu.x[5] = 0x1_2345_6789;
    vm.cpu.x[6] = a;
    vm.cpu.x[7] = a + 0x40;
    assert_eq!(vm.bus.store(a, 0xffff_ffff_8000_0001, 64), Ok(()));
    assert_eq!(vm.tick(None), Ok(None));
    assert_eq!(vm.cpu.x[10], 0xffff_ffff_8000_0001);
    assert_eq!(vm.cpu.reservation, Some(a));
    // The reserved address: the store happens.
    assert_eq!(vm.tick(None), Ok(None));
    assert_eq!(vm.cpu.x[11], 0);
    assert_eq!(vm.cpu.reservation, None);
    assert_eq!(vm.bus.load(a, 64), Ok(0xffff_ffff_2345_6789));
    // No reservation: nothing is stored.
    assert_eq!(vm.tick(None), Ok(None));
    assert_eq!(vm.cpu.x[12], 1);
    assert_eq!(vm.bus.load(a, 64), Ok(0xffff_ffff_2345_6789));
    // Another address than the reserved one.
    assert_eq!(vm.tick(None), Ok(None));
    assert_eq!(vm.cpu.x[13], 0xffff_ffff_2345_6789);
    assert_eq!(vm.tick(None), Ok(None));
    assert_eq!(vm.cpu.x[14], 1);
    assert_eq!(vm.cpu.reservation, None);
    // A store in between clears the reservation.
    assert_eq!(vm.tick(None), Ok(None));
    assert_eq!(vm.cpu.reservation, Some(a));
    assert_eq!(vm.tick(None), Ok(None));
    assert_eq!(vm.cpu.reservation, None);
    assert_eq!(vm.tick(None), Ok(None));
    assert_eq!(vm.cpu.x[16], 1);
    assert_eq!(vm.bus.load(a, 64), Ok(0xffff_ffff_2345_6789));
}

fn amo(inst: Inst, memory: u64, src: u64) -> (u64, u64) {
    let a = RAM_BASE + 0x100;
    let mut vm = machine(&[inst]);
    vm.cpu.x[6] = a;
    vm.cpu.x[5] = src;
    vm.cpu.reservation = Some(a);
    assert_eq!(vm.bus.store(a, memory, 64), Ok(()));
    assert_eq!(vm.tick(None), Ok(None));
    assert_eq!(vm.cpu.reservation, None);
    (vm.cpu.x[10], vm.bus.load(a, 64).unwrap())
}

#[test]
fn atomic_operations_on_words() {
    let m = 0x1111_1111_8000_0002u64;
    let s = 0x2222_2222_0000_0005u64;
    let old = 0xffff_ffff_8000_0002u64;
    let keep = 0x1111_1111_0000_0000u64;
    let (aq, rl) = (false, false);
    assert_eq!(amo(Inst::Amoswapw { rd: 10, rs1: 6, rs2: 5, aq, rl }, m, s), (old, keep | 5));
    assert_eq!(
        amo(Inst::Amoaddw { rd: 10, rs1: 6, rs2: 5, aq, rl }, m, s),
        (old, keep | 0x8000_0007)
    );
    assert_eq!(
        amo(Inst::Amoxorw { rd: 10, rs1: 6, rs2: 5, aq, rl }, m, s),
        (old, keep | 0x8000_0007)
    );
    assert_eq!(amo(Inst::Amoandw { rd: 10, rs1: 6, rs2: 5, aq, rl }, m, s), (old, keep));
    assert_eq!(
        amo(Inst::Amoorw { rd: 10, rs1: 6, rs2: 5, aq, rl }, m, s),
        (old, keep | 0x8000_0007)
    );
    assert_eq!(
        amo(Inst::Amominw { rd: 10, rs1: 6, rs2: 5, aq, rl }, m, s),
        (old, keep | 0x8000_0002)
    );
    assert_eq!(amo(Inst::Amomaxw { rd: 10, rs1: 6, rs2: 5, aq, rl }, m, s), (old, keep | 5));
    assert_eq!(amo(Inst::Amominuw { rd: 10, rs1: 6, rs2: 5, aq, rl }, m, s), (old, keep | 5));
    assert_eq!(
        amo(Inst::Amomaxuw { rd: 10, rs1: 6, rs2: 5, aq, rl }, m, s),
        (old, keep | 0x8000_0002)
    );
    // The sum wraps within the word.
    assert_eq!(
        amo(Inst::Amoaddw { rd: 10, rs1: 6, rs2: 5, aq, rl }, 0x7_ffff_ffff, 1),
        (u64::MAX, 0x7_0000_0000)
    );
}

#[test]
fn atomic_operations_on_doublewords() {
    let m = 0x8000_0000_0000_0002u64;
    let s = 5u64;
    let (aq, rl) = (true, true);
    assert_eq!(amo(Inst::Amoswapd { rd: 10, rs1: 6, rs2: 5, aq, rl }, m, s), (m, s));
    assert_eq!(amo(Inst::Amoaddd { rd: 10, rs1: 6, rs2: 5, aq, rl }, m, s), (m, m + 5));
    assert_eq!(amo(Inst::Amoxord { rd: 10, rs1: 6, rs2: 5, aq, rl }, m, s), (m, m ^ 5));
    assert_eq!(amo(Inst::Amoandd { rd: 10, rs1: 6, rs2: 5, aq, rl }, m, 7), (m, 2));
    assert_eq!(amo(Inst::Amoord { rd: 10, rs1: 6, rs2: 5, aq, rl }, m, s), (m, m | 5));
    assert_eq!(amo(Inst::Amomind { rd: 10, rs1: 6, rs2: 5, aq, rl }, m, s), (m, m));
    assert_eq!(amo(Inst::Amomaxd { rd: 10, rs1: 6, rs2: 5, aq, rl }, m, s), (m, s));
    assert_eq!(amo(Inst::Amominud { rd: 10, rs1: 6, rs2: 5, aq, rl }, m, s), (m, s));
    assert_eq!(amo(Inst::Amomaxud { rd: 10, rs1: 6, rs2: 5, aq, rl }, m, s), (m, m));
    assert_eq!(amo(Inst::Amoaddd { rd: 10, rs1: 6, rs2: 5, aq, rl }, u64::MAX, 2), (u64::MAX, 1));
}

#[test]
fn atomic_on_unmapped_address_faults() {
    let mut vm = machine(&[Inst::Amoaddw { rd: 10, rs1: 6, rs2: 5, aq: false, rl: false }]);
    vm.cpu.x[6] = 0x4000;
    vm.cpu.x[10] = 3;
    assert_eq!(vm.cpu.tick(&mut vm.bus), Err(Exception::LoadAccessFault(0x4000)));
    assert_eq!(vm.cpu.x[10], 3);
    let mut vm = machine(&[Inst::Scd { rd: 10, rs1: 6, rs2: 5, aq: false, rl: false }]);
    vm.cpu.x[6] = 0x4000;
    vm.cpu.reservation = Some(0x4000);
    assert_eq!(vm.cpu.tick(&mut vm.bus), Err(Exception::StoreAMOAccessFault(0x4000)));
}

#[test]
fn fences_do_nothing() {
    let mut vm = machine(&[
        Inst::Fence { rd: 0, rs1: 0, imm: 0xff },
        Inst::Fencei { rd: 0, rs1: 0, imm: 0 },
        Inst::Sfencevma,
    ]);
    vm.cpu.x[5] = 55;
    for i in 1..=3 {
        assert_eq!(vm.tick(None), Ok(None));
        assert_eq!(vm.cpu.pc, RAM_BASE + 4 * i);
    }
    assert_eq!(vm.cpu.x[5], 55);
    assert_eq!(vm.cpu.x[2], RAM_BASE + RAM_LEN);
}

#[test]
fn reset_restores_the_initial_state() {
    let mut vm = machine(&[Inst::Addi { rd: 10, rs1: 0, imm: 5 }, Inst::Ecall]);
    vm.cpu.csr[MTVEC] = RAM_BASE + 0x100;
    assert_eq!(vm.tick(Some('z')), Ok(None));
    assert_eq!(vm.tick(None), Ok(None));
    assert_eq!(vm.bus.store(UART_BASE, 0x41, 8), Ok(()));
    vm.cpu.reservation = Some(4);
    vm.reset();
    assert_eq!(vm.cpu.pc, RAM_BASE);
    assert_eq!(vm.cpu.mode, MACHINE);
    assert_eq!(vm.cpu.reservation, None);
    assert_eq!(vm.cpu.x[2], RAM_BASE + RAM_LEN);
    assert_eq!(vm.cpu.x[10], 0);
    assert!(vm.cpu.csr.iter().all(|v| *v == 0));
    assert_eq!(vm.bus.load(RAM_BASE, 32), Ok(0));
    assert_eq!(vm.bus.load(0x0200_bff8, 64), Ok(0));
    assert_eq!(vm.bus.load(UART_BASE + 5, 8), Ok(0x20));
    assert_eq!(vm.bus.uart.tick(None), None);

    let mut cpu = Cpu::new();
    cpu.x[7] = 7;
    cpu.pc = 8;
    cpu.mode = USER;
    cpu.csr[MSTATUS] = 9;
    cpu.reset().x[1] = 3;
    assert_eq!(cpu.x[1], 3);
    cpu.reset();
    assert_eq!(cpu.x, [0; 32]);
    assert_eq!(cpu.pc, 0);
    assert_eq!(cpu.mode, MACHINE);
    assert_eq!(cpu.csr[MSTATUS], 0);
}
