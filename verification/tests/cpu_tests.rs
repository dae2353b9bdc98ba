use sm83::cpu::{self, CPUError, CPUStage, Flags, Register16, Register8, RegisterFile, CPU};
use sm83::decode::{Instruction, InstructionName};
use sm83::ram::{self, RAM};
use sm83::schedule::{Action, MicroOp, Operand};

fn load(ram: &mut RAM, at: u16, bytes: &[u8]) {
    for (offset, byte) in bytes.iter().enumerate() {
        ram._write(*byte, at + offset as u16).unwrap();
    }
}

fn run(cpu: &mut CPU, ram: &mut RAM, ticks: usize) {
    for _ in 0..ticks {
        cpu.tick(ram).unwrap();
    }
}

/// Runs until the engine stops and returns the ticks it took.
fn run_to_halt(cpu: &mut CPU, ram: &mut RAM) -> usize {
    let mut ticks = 0;
    while cpu.running {
        cpu.tick(ram).unwrap();
        ticks += 1;
        assert!(ticks < 1000);
    }
    ticks
}

fn pending(cpu: &CPU) -> Vec<MicroOp> {
    cpu.queue.iter().copied().collect()
}

fn seeded() -> RegisterFile {
    RegisterFile {
        a: 0x11,
        f: 0xA0,
        b: 0x22,
        c: 0x33,
        d: 0x44,
        e: 0x55,
        h: 0xC6,
        l: 0x77,
        sp: 0x1234,
        pc: 0x0100,
        w: 0,
        z: 0,
    }
}

const NOP: MicroOp = MicroOp { action: Action::Nothing, advance: true, hands_over: true };

#[test]
fn new_engine_is_zeroed_and_ready() {
    let cpu = cpu::init();
    assert_eq!(
        cpu.register_file,
        RegisterFile { a: 0, f: 0, b: 0, c: 0, d: 0, e: 0, h: 0, l: 0, sp: 0, pc: 0, w: 0, z: 0 }
    );
    assert!(cpu.running);
    assert_eq!(cpu.stage, CPUStage::FetchDecode);
    assert!(cpu.queue.is_empty());
    assert_eq!(
        cpu.current_instruction,
        Instruction { name: InstructionName::Nop, source: 0, target: 0, pair: 0, condition: 0 }
    );
    assert_eq!(
        cpu.register_file.flags(),
        Flags { zero: false, subtraction: false, half_carry: false, carry: false }
    );
}

#[test]
fn nop_after_one_tick() {
    let mut cpu = cpu::init();
    let mut ram = ram::init();
    cpu.register_file = seeded();
    assert_eq!(cpu.tick(&mut ram), Ok(()));
    assert_eq!(cpu.register_file, RegisterFile { pc: 0x0101, ..seeded() });
    assert!(cpu.running);
    assert_eq!(cpu.stage, CPUStage::FetchDecode);
    assert!(cpu.queue.is_empty());
}

#[test]
fn two_nops_take_two_ticks() {
    let mut cpu = cpu::init();
    let mut ram = ram::init();
    for tick in 1..=5u16 {
        assert_eq!(cpu.tick(&mut ram), Ok(()));
        assert_eq!(cpu.register_file.pc, tick);
        assert_eq!(cpu.stage, CPUStage::FetchDecode);
        assert!(cpu.queue.is_empty());
    }
}

#[test]
fn halt_after_one_tick() {
    let mut cpu = cpu::init();
    let mut ram = ram::init();
    load(&mut ram, 0x0050, &[0x76]);
    cpu.register_file = RegisterFile { pc: 0x0050, ..seeded() };
    assert_eq!(cpu.tick(&mut ram), Ok(()));
    assert_eq!(cpu.register_file, RegisterFile { pc: 0x0051, ..seeded() });
    assert!(!cpu.running);
    assert_eq!(cpu.stage, CPUStage::FetchDecode);
    assert!(cpu.queue.is_empty());
    assert_eq!(cpu.current_instruction.name, InstructionName::Halt);

    for _ in 0..3 {
        assert_eq!(cpu.tick(&mut ram), Ok(()));
        assert_eq!(cpu.register_file, RegisterFile { pc: 0x0051, ..seeded() });
        assert!(!cpu.running);
        assert_eq!(cpu.stage, CPUStage::FetchDecode);
        assert!(cpu.queue.is_empty());
        assert_eq!(ram.read(0x0050), Ok(0x76));
    }
}

#[test]
fn engine_fetches_again_once_set_running() {
    for opcode in [0x76u8, 0x10] {
        let mut cpu = cpu::init();
        let mut ram = ram::init();
        load(&mut ram, 0x0050, &[opcode]);
        cpu.register_file.pc = 0x0050;
        cpu.tick(&mut ram).unwrap();
        assert!(!cpu.running);
        let stopped_at = cpu.register_file.pc;
        cpu.running = true;
        assert_eq!(cpu.tick(&mut ram), Ok(()));
        assert_eq!(cpu.register_file.pc, stopped_at + 1);
        assert_eq!(cpu.current_instruction.name, InstructionName::Nop);
    }
}

#[test]
fn stop_skips_its_padding_byte() {
    let mut cpu = cpu::init();
    let mut ram = ram::init();
    load(&mut ram, 0x0050, &[0x10, 0x00]);
    cpu.register_file.pc = 0x0050;
    assert_eq!(cpu.tick(&mut ram), Ok(()));
    assert_eq!(cpu.register_file.pc, 0x0052);
    assert!(!cpu.running);
    assert_eq!(cpu.stage, CPUStage::FetchDecode);
    assert_eq!(cpu.tick(&mut ram), Ok(()));
    assert_eq!(cpu.register_file.pc, 0x0052);
}

#[test]
fn store_sp_after_five_ticks() {
    let mut cpu = cpu::init();
    let mut ram = ram::init();
    load(&mut ram, 0x0200, &[0x08, 0x00, 0xC0]);
    cpu.register_file.sp = 0x1234;
    cpu.register_file.pc = 0x0200;
    for tick in 1..=5 {
        let fetching = tick == 1 || tick == 5;
        assert_eq!(cpu.stage, if fetching { CPUStage::FetchDecode } else { CPUStage::Execute });
        assert_eq!(cpu.tick(&mut ram), Ok(()));
    }
    assert_eq!(ram.read(0xC000), Ok(0x34));
    assert_eq!(ram.read(0xC001), Ok(0x12));
    assert_eq!(cpu.register_file.pc, 0x0203);
    assert_eq!(cpu.register_file.sp, 0x1234);
    // The fifth tick fetched the opcode that follows beside the last step.
    assert_eq!(cpu.current_instruction.name, InstructionName::Nop);
    assert_eq!(pending(&cpu), vec![NOP]);
}

#[test]
fn store_sp_orders_its_steps() {
    let mut cpu = cpu::init();
    let mut ram = ram::init();
    load(&mut ram, 0x0200, &[0x08, 0xFE, 0xC0]);
    cpu.register_file.sp = 0xABCD;
    cpu.register_file.pc = 0x0200;

    cpu.tick(&mut ram).unwrap();
    assert_eq!((cpu.register_file.pc, cpu.register_file.z), (0x0201, 0xFE));
    cpu.tick(&mut ram).unwrap();
    assert_eq!((cpu.register_file.pc, cpu.register_file.w), (0x0202, 0xC0));
    assert_eq!(cpu.register_file.wz(), 0xC0FE);
    cpu.tick(&mut ram).unwrap();
    assert_eq!((ram.read(0xC0FE), ram.read(0xC0FF)), (Ok(0xCD), Ok(0x00)));
    assert_eq!(cpu.stage, CPUStage::Execute);
    cpu.tick(&mut ram).unwrap();
    assert_eq!((ram.read(0xC0FE), ram.read(0xC0FF)), (Ok(0xCD), Ok(0xAB)));
    // The last step is left, and the program counter is off the opcode.
    assert_eq!(cpu.register_file.pc, 0x0202);
    assert_eq!(cpu.stage, CPUStage::FetchDecode);
    assert_eq!(
        pending(&cpu),
        vec![MicroOp { action: Action::Nothing, advance: true, hands_over: false }]
    );
    cpu.tick(&mut ram).unwrap();
    assert_eq!(cpu.register_file.pc, 0x0203);
    assert_eq!(cpu.stage, CPUStage::Execute);
}

#[test]
fn top_address_can_be_fetched_from() {
    let mut cpu = cpu::init();
    let mut ram = ram::init();
    cpu.register_file.pc = 0xFFFF;
    assert_eq!(cpu.tick(&mut ram), Ok(()));
    assert_eq!(cpu.register_file.pc, 0x0000);
}

#[test]
fn fetch_from_unreadable_region_is_illegal() {
    let mut cpu = cpu::init();
    let mut ram = ram::init();
    cpu.register_file.pc = 0xE000;
    assert_eq!(cpu.tick(&mut ram), Err(CPUError::IllegalFetch));
    assert_eq!(cpu.register_file.pc, 0xE000);
    assert_eq!(cpu.stage, CPUStage::FetchDecode);
    assert!(cpu.queue.is_empty());
    assert!(cpu.running);
    cpu.register_file.pc = 0xFEA0;
    assert_eq!(cpu.tick(&mut ram), Err(CPUError::IllegalFetch));

    let mut ram = ram::configured(true, true);
    cpu.register_file.pc = 0xE000;
    assert_eq!(cpu.tick(&mut ram), Ok(()));
    assert_eq!(cpu.register_file.pc, 0xE001);
}

#[test]
fn illegal_opcode_surfaces() {
    for opcode in [0xD3u8, 0xDB, 0xDD, 0xE3, 0xE4, 0xEB, 0xEC, 0xED, 0xF4, 0xFC, 0xFD] {
        let mut cpu = cpu::init();
        let mut ram = ram::init();
        load(&mut ram, 0x0100, &[opcode]);
        cpu.register_file = seeded();
        assert_eq!(cpu.tick(&mut ram), Err(CPUError::IllegalOpcode));
        assert_eq!(cpu.register_file, seeded());
        assert_eq!(cpu.stage, CPUStage::FetchDecode);
        assert!(cpu.queue.is_empty());
        assert_eq!(cpu.current_instruction.name, InstructionName::Nop);
        assert_eq!(cpu.tick(&mut ram), Err(CPUError::IllegalOpcode));
    }
}

#[test]
fn unimplemented_opcode_surfaces() {
    for opcode in [0x02u8, 0x3A, 0xC3, 0xC9, 0xFB, 0xD9, 0xE9, 0xF3, 0xF9] {
        let mut cpu = cpu::init();
        let mut ram = ram::init();
        load(&mut ram, 0x0100, &[opcode]);
        cpu.register_file = seeded();
        assert_eq!(cpu.tick(&mut ram), Err(CPUError::UnimplementedOpcode));
        assert_eq!(cpu.register_file, seeded());
        assert_eq!(cpu.stage, CPUStage::FetchDecode);
        assert!(cpu.queue.is_empty());
        assert_eq!(cpu.current_instruction.name, InstructionName::Nop);
    }
}

#[test]
fn empty_queue_in_execute_stage_surfaces() {
    let mut cpu = cpu::init();
    let mut ram = ram::init();
    cpu.register_file = seeded();
    cpu.stage = CPUStage::Execute;
    assert_eq!(cpu.tick(&mut ram), Err(CPUError::EmptyMicroOpQueue));
    assert_eq!(cpu.execute_micro_op(&mut ram), Some(Err(CPUError::EmptyMicroOpQueue)));
    assert_eq!(cpu.register_file, seeded());
    assert_eq!(cpu.stage, CPUStage::Execute);
    assert!(cpu.running);
}

#[test]
fn execute_micro_op_runs_the_front_of_the_queue() {
    let mut cpu = cpu::init();
    let mut ram = ram::init();
    cpu.stage = CPUStage::Execute;
    cpu.queue.push_back(MicroOp::handing_over(Action::FetchLow));
    cpu.queue.push_back(MicroOp::advancing(Action::Load {
        target: Register8::A,
        source: Operand::Latch,
    }));
    load(&mut ram, 0x0001, &[0x99]);
    assert_eq!(cpu.execute_micro_op(&mut ram), None);
    assert_eq!(cpu.register_file.pc, 0x0001);
    assert_eq!(cpu.register_file.z, 0x99);
    assert_eq!(cpu.stage, CPUStage::FetchDecode);
    assert_eq!(pending(&cpu).len(), 1);
    assert_eq!(cpu.execute_micro_op(&mut ram), None);
    assert_eq!(cpu.register_file.a, 0x99);
    assert_eq!(cpu.register_file.pc, 0x0002);
    assert!(cpu.queue.is_empty());
}

#[test]
fn failed_fetch_keeps_the_last_step_pending() {
    let mut cpu = cpu::init();
    let mut ram = ram::init();
    // LD A,0x12 followed by an undefined byte.
    load(&mut ram, 0x0100, &[0x3E, 0x12, 0xD3]);
    cpu.register_file.pc = 0x0100;
    assert_eq!(cpu.tick(&mut ram), Ok(()));
    for _ in 0..2 {
        assert_eq!(cpu.tick(&mut ram), Err(CPUError::IllegalOpcode));
        assert_eq!(cpu.register_file.pc, 0x0101);
        assert_eq!(cpu.register_file.a, 0x00);
        assert_eq!(cpu.stage, CPUStage::FetchDecode);
        assert_eq!(pending(&cpu).len(), 1);
        assert_eq!(cpu.current_instruction.name, InstructionName::LdR8U8);
    }
}

#[test]
fn small_program_adds_two_bytes() {
    let mut cpu = cpu::init();
    let mut ram = ram::init();
    // LD A,0x3A ; LD B,0xC6 ; ADD A,B ; HALT
    load(&mut ram, 0x0000, &[0x3E, 0x3A, 0x06, 0xC6, 0x80, 0x76]);
    assert_eq!(run_to_halt(&mut cpu, &mut ram), 2 + 2 + 1 + 1);
    assert_eq!(cpu.register_file.a, 0x00);
    assert_eq!(cpu.register_file.b, 0xC6);
    assert_eq!(cpu.register_file.f, 0xB0);
    assert_eq!(cpu.register_file.pc, 0x0006);
    assert_eq!(
        cpu.register_file.flags(),
        Flags { zero: true, subtraction: false, half_carry: true, carry: true }
    );
}

#[test]
fn multi_cycle_instruction_takes_its_cycles() {
    for (program, cycles, length) in [
        (vec![0x01u8, 0x34, 0x12], 3usize, 3u16),
        (vec![0x08, 0x00, 0xC0], 5, 3),
        (vec![0x3E, 0x99], 2, 2),
        (vec![0x36, 0x99], 3, 2),
        (vec![0x34], 3, 1),
        (vec![0x86], 2, 1),
        (vec![0x70], 2, 1),
        (vec![0x23], 2, 1),
        (vec![0x29], 2, 1),
        (vec![0xEE, 0xFF], 2, 2),
        (vec![0xE0, 0x42], 3, 2),
        (vec![0xF0, 0x42], 3, 2),
        (vec![0xE2], 2, 1),
        (vec![0xEA, 0x00, 0xC0], 4, 3),
        (vec![0xFA, 0x00, 0xC0], 4, 3),
        (vec![0xC5], 4, 1),
        (vec![0xC1], 3, 1),
        (vec![0xE8, 0x01], 4, 2),
        (vec![0xF8, 0x01], 3, 2),
        (vec![0xCB, 0x00], 2, 2),
        (vec![0xCB, 0x46], 3, 2),
        (vec![0xCB, 0xC6], 4, 2),
    ] {
        let mut cpu = cpu::init();
        let mut ram = ram::init();
        load(&mut ram, 0x0100, &program);
        cpu.register_file = seeded();
        for _ in 1..cycles - 1 {
            assert_eq!(cpu.tick(&mut ram), Ok(()));
            assert_eq!(cpu.stage, CPUStage::Execute);
        }
        // The last tick but one hands over with exactly the last step left
        // and the program counter off the opcode.
        assert_eq!(cpu.tick(&mut ram), Ok(()));
        assert_eq!(cpu.stage, CPUStage::FetchDecode);
        assert_eq!(pending(&cpu).len(), 1);
        assert_ne!(cpu.register_file.pc, 0x0100);
        assert_eq!(cpu.current_instruction.machine_cycles(), Some(cycles as u8));
        // The last tick fetches the opcode that follows.
        assert_eq!(cpu.tick(&mut ram), Ok(()));
        assert_eq!(cpu.register_file.pc, 0x0100 + length);
        assert_eq!(cpu.current_instruction.name, InstructionName::Nop);
        assert_eq!(pending(&cpu), vec![NOP]);
        // The tick after runs that opcode.
        assert_eq!(cpu.tick(&mut ram), Ok(()));
        assert_eq!(cpu.register_file.pc, 0x0101 + length);
        assert!(cpu.queue.is_empty());
    }
}

#[test]
fn instructions_back_to_back_take_their_cycles() {
    let mut cpu = cpu::init();
    let mut ram = ram::init();
    // LD BC,0x1234 ; LD (0xC000),SP ; INC (HL) ; LD A,0x77 ; PUSH BC ; HALT
    load(
        &mut ram,
        0x0000,
        &[0x01, 0x34, 0x12, 0x08, 0x00, 0xC0, 0x34, 0x3E, 0x77, 0xC5, 0x76],
    );
    cpu.register_file.sp = 0xD000;
    cpu.register_file.h = 0xC1;
    let mut at = Vec::new();
    let mut ticks = 0;
    let mut last = cpu.current_instruction;
    while cpu.running {
        cpu.tick(&mut ram).unwrap();
        ticks += 1;
        if cpu.current_instruction != last {
            at.push(ticks);
            last = cpu.current_instruction;
        }
    }
    // Each opcode after the first is fetched on the last tick of the
    // instruction before it.
    assert_eq!(at, vec![1, 3, 3 + 5, 3 + 5 + 3, 3 + 5 + 3 + 2, 3 + 5 + 3 + 2 + 4]);
    assert_eq!(ticks, 3 + 5 + 3 + 2 + 4 + 1);
    assert_eq!(cpu.register_file.get16(Register16::BC), 0x1234);
    assert_eq!(ram.read(0xC000), Ok(0x00));
    assert_eq!(ram.read(0xC001), Ok(0xD0));
    assert_eq!(ram.read(0xC100), Ok(0x01));
    assert_eq!(cpu.register_file.a, 0x77);
    assert_eq!((ram.read(0xCFFF), ram.read(0xCFFE)), (Ok(0x12), Ok(0x34)));
    assert_eq!(cpu.register_file.pc, 0x000B);
}

#[test]
fn loads_through_hl() {
    let mut cpu = cpu::init();
    let mut ram = ram::init();
    // LD HL,0xC000 ; LD (HL),0x5A ; LD B,(HL) ; INC (HL) ; HALT
    load(&mut ram, 0x0000, &[0x21, 0x00, 0xC0, 0x36, 0x5A, 0x46, 0x34, 0x76]);
    assert_eq!(run_to_halt(&mut cpu, &mut ram), 3 + 3 + 2 + 3 + 1);
    assert_eq!(cpu.register_file.hl(), 0xC000);
    assert_eq!(cpu.register_file.b, 0x5A);
    assert_eq!(ram.read(0xC000), Ok(0x5B));
    assert_eq!(cpu.register_file.pc, 0x0008);
    assert_eq!(cpu.stage, CPUStage::FetchDecode);
}

#[test]
fn pair_arithmetic() {
    let mut cpu = cpu::init();
    let mut ram = ram::init();
    // LD BC,0x0605 ; LD HL,0x8A23 ; ADD HL,BC ; DEC BC ; INC SP ; HALT
    load(&mut ram, 0x0000, &[0x01, 0x05, 0x06, 0x21, 0x23, 0x8A, 0x09, 0x0B, 0x33, 0x76]);
    cpu.register_file.f = 0x80;
    cpu.register_file.sp = 0xFFFF;
    assert_eq!(run_to_halt(&mut cpu, &mut ram), 3 + 3 + 2 + 2 + 2 + 1);
    assert_eq!(cpu.register_file.get16(Register16::HL), 0x9028);
    assert_eq!(cpu.register_file.get16(Register16::BC), 0x0604);
    assert_eq!(cpu.register_file.get16(Register16::SP), 0x0000);
    assert_eq!(cpu.register_file.f, 0xA0);
    assert_eq!(cpu.register_file.pc, 0x000A);
}

#[test]
fn accumulator_operations_run() {
    let mut cpu = cpu::init();
    let mut ram = ram::init();
    // LD A,0x85 ; RLCA ; CPL ; SCF ; CCF ; HALT
    load(&mut ram, 0x0000, &[0x3E, 0x85, 0x07, 0x2F, 0x37, 0x3F, 0x76]);
    assert_eq!(run_to_halt(&mut cpu, &mut ram), 2 + 4 + 1);
    assert_eq!(cpu.register_file.a, 0xF4);
    assert_eq!(cpu.register_file.f, 0x00);
    assert_eq!(cpu.register_file.pc, 0x0007);
}

#[test]
fn compare_immediate_sets_flags_only() {
    let mut cpu = cpu::init();
    let mut ram = ram::init();
    // LD A,0x3C ; CP 0x40 ; HALT
    load(&mut ram, 0x0000, &[0x3E, 0x3C, 0xFE, 0x40, 0x76]);
    run_to_halt(&mut cpu, &mut ram);
    assert_eq!(cpu.register_file.a, 0x3C);
    assert_eq!(cpu.register_file.f, 0x50);
}

#[test]
fn refused_bus_access_does_not_fail_the_tick() {
    let mut cpu = cpu::init();
    let mut ram = ram::init();
    // LD (HL),A ; LD B,(HL) ; HALT, with HL in the echo region, which is not emulated.
    load(&mut ram, 0x0000, &[0x77, 0x46, 0x76]);
    cpu.register_file.a = 0x99;
    cpu.register_file.b = 0x77;
    cpu.register_file.h = 0xE0;
    cpu.register_file.l = 0x00;
    run_to_halt(&mut cpu, &mut ram);
    assert_eq!(ram.read(0xC000), Ok(0x00));
    assert_eq!(cpu.register_file.b, 0x00);
    assert_eq!(cpu.register_file.pc, 0x0003);
}

#[test]
fn program_counter_wraps() {
    let mut cpu = cpu::init();
    let mut ram = ram::init();
    // LD A,0x42 across the top of memory.
    load(&mut ram, 0xFFFE, &[0x3E]);
    load(&mut ram, 0xFFFF, &[0x42]);
    cpu.register_file.pc = 0xFFFE;
    run(&mut cpu, &mut ram, 2);
    assert_eq!(cpu.register_file.a, 0x42);
    assert_eq!(cpu.register_file.pc, 0x0000);
    assert_eq!(cpu.current_instruction.name, InstructionName::Nop);
}

#[test]
fn register_file_pairs_are_views() {
    let mut registers = seeded();
    assert_eq!(registers.get16(Register16::AF), 0x11A0);
    assert_eq!(registers.get16(Register16::BC), 0x2233);
    assert_eq!(registers.get16(Register16::DE), 0x4455);
    assert_eq!(registers.hl(), 0xC677);
    assert_eq!(registers.get16(Register16::SP), 0x1234);
    registers.set16(Register16::DE, 0xBEEF);
    assert_eq!((registers.d, registers.e), (0xBE, 0xEF));
    registers.set(Register8::L, 0x01);
    assert_eq!(registers.hl(), 0xC601);
    assert_eq!(registers.get(Register8::A), 0x11);
    registers.set_flags(Flags { zero: false, subtraction: true, half_carry: false, carry: true });
    assert_eq!(registers.f, 0x50);
    assert_eq!(registers.get16(Register16::AF), 0x1150);
    assert_eq!(cpu::register8(6), None);
    assert_eq!(cpu::register8(7), Some(Register8::A));
    assert_eq!(cpu::register16(3), Some(Register16::SP));
    assert_eq!(cpu::stack_register16(3), Some(Register16::AF));
    assert_eq!(cpu::register16(4), None);
    assert_eq!(cpu::next_address(0xFFFF), 0x0000);
    assert_eq!(cpu::previous_address(0x0000), 0xFFFF);
}

#[test]
fn flags_nibble_stays_clear() {
    let mut cpu = cpu::init();
    let mut ram = ram::init();
    // A walk through every arithmetic form on a register.
    load(&mut ram, 0x0000, &[0x80, 0x89, 0x92, 0x9B, 0xA4, 0xAD, 0xB6, 0xBF, 0x3C, 0x3D, 0x76]);
    cpu.register_file = RegisterFile { pc: 0, f: 0xF0, ..seeded() };
    while cpu.running {
        cpu.tick(&mut ram).unwrap();
        assert_eq!(cpu.register_file.f & 0x0F, 0);
    }
    assert_eq!(cpu.register_file.pc, 0x000B);
}

#[test]
fn top_page_loads() {
    let mut cpu = cpu::init();
    let mut ram = ram::init();
    // LD A,0x5A ; LDH (0x42),A ; LD C,0x43 ; LDH (C),A ; LD A,0 ; LDH A,(0x42) ; LD B,A ;
    // LD A,0 ; LDH A,(C) ; HALT
    load(
        &mut ram,
        0x0000,
        &[
            0x3E, 0x5A, 0xE0, 0x42, 0x0E, 0x43, 0xE2, 0x3E, 0x00, 0xF0, 0x42, 0x47, 0x3E, 0x00,
            0xF2, 0x76,
        ],
    );
    assert_eq!(run_to_halt(&mut cpu, &mut ram), 2 + 3 + 2 + 2 + 2 + 3 + 1 + 2 + 2 + 1);
    assert_eq!(ram.read(0xFF42), Ok(0x5A));
    assert_eq!(ram.read(0xFF43), Ok(0x5A));
    assert_eq!(cpu.register_file.b, 0x5A);
    assert_eq!(cpu.register_file.a, 0x5A);
    assert_eq!(cpu.register_file.pc, 0x0010);
}

#[test]
fn top_page_reaches_the_top_address() {
    let mut cpu = cpu::init();
    let mut ram = ram::init();
    // LD A,0x1F ; LDH (0xFF),A ; HALT
    load(&mut ram, 0x0000, &[0x3E, 0x1F, 0xE0, 0xFF, 0x76]);
    run_to_halt(&mut cpu, &mut ram);
    assert_eq!(ram.read(0xFFFF), Ok(0x1F));
}

#[test]
fn absolute_loads() {
    let mut cpu = cpu::init();
    let mut ram = ram::init();
    // LD A,0x77 ; LD (0xC123),A ; LD A,0 ; LD A,(0xC123) ; HALT
    load(&mut ram, 0x0000, &[0x3E, 0x77, 0xEA, 0x23, 0xC1, 0x3E, 0x00, 0xFA, 0x23, 0xC1, 0x76]);
    run(&mut cpu, &mut ram, 2 + 4);
    assert_eq!(ram.read(0xC123), Ok(0x77));
    run(&mut cpu, &mut ram, 2);
    assert_eq!(cpu.register_file.a, 0x00);
    assert_eq!(run_to_halt(&mut cpu, &mut ram), 4 + 1);
    assert_eq!(cpu.register_file.a, 0x77);
    assert_eq!(cpu.register_file.pc, 0x000B);
}

#[test]
fn push_and_pop() {
    let mut cpu = cpu::init();
    let mut ram = ram::init();
    // PUSH BC ; POP DE ; HALT
    load(&mut ram, 0x0000, &[0xC5, 0xD1, 0x76]);
    cpu.register_file.b = 0x12;
    cpu.register_file.c = 0x34;
    cpu.register_file.sp = 0xD000;
    run(&mut cpu, &mut ram, 4);
    assert_eq!(cpu.register_file.sp, 0xCFFE);
    assert_eq!(ram.read(0xCFFF), Ok(0x12));
    assert_eq!(ram.read(0xCFFE), Ok(0x34));
    assert_eq!(run_to_halt(&mut cpu, &mut ram), 3 + 1);
    assert_eq!(cpu.register_file.sp, 0xD000);
    assert_eq!((cpu.register_file.d, cpu.register_file.e), (0x12, 0x34));
    assert_eq!(cpu.register_file.pc, 0x0003);
}

#[test]
fn pop_af_keeps_the_low_nibble_clear() {
    let mut cpu = cpu::init();
    let mut ram = ram::init();
    // POP AF ; PUSH AF ; HALT
    load(&mut ram, 0x0000, &[0xF1, 0xF5, 0x76]);
    load(&mut ram, 0xC000, &[0xFF, 0x9A]);
    cpu.register_file.sp = 0xC000;
    run(&mut cpu, &mut ram, 3);
    assert_eq!(cpu.register_file.a, 0x9A);
    assert_eq!(cpu.register_file.f, 0xF0);
    assert_eq!(cpu.register_file.sp, 0xC002);
    run_to_halt(&mut cpu, &mut ram);
    assert_eq!(ram.read(0xC000), Ok(0xF0));
    assert_eq!(ram.read(0xC001), Ok(0x9A));
    assert_eq!(cpu.register_file.sp, 0xC000);
}

#[test]
fn relative_jump_forward_and_back() {
    let mut cpu = cpu::init();
    let mut ram = ram::init();
    load(&mut ram, 0x0100, &[0x18, 0x05]);
    load(&mut ram, 0x0107, &[0x76]);
    cpu.register_file.pc = 0x0100;
    run(&mut cpu, &mut ram, 2);
    assert_eq!(cpu.stage, CPUStage::FetchDecode);
    assert_eq!(cpu.register_file.pc, 0x0101);
    run(&mut cpu, &mut ram, 1);
    // The third tick fetched at the target beside the jump.
    assert_eq!(cpu.register_file.pc, 0x0107);
    assert_eq!(cpu.current_instruction.name, InstructionName::Halt);

    let mut cpu = cpu::init();
    load(&mut ram, 0x0200, &[0x18, 0xFE]);
    cpu.register_file.pc = 0x0200;
    run(&mut cpu, &mut ram, 3);
    assert_eq!(cpu.register_file.pc, 0x0200);
    assert_eq!(cpu.current_instruction.name, InstructionName::JrUnconditional);

    let mut cpu = cpu::init();
    load(&mut ram, 0x0300, &[0x18, 0x80]);
    cpu.register_file.pc = 0x0300;
    run(&mut cpu, &mut ram, 3);
    assert_eq!(cpu.register_file.pc, 0x0282);
}

#[test]
fn call_pushes_the_return_address() {
    let mut cpu = cpu::init();
    let mut ram = ram::init();
    load(&mut ram, 0x0100, &[0xCD, 0x34, 0x12]);
    load(&mut ram, 0x1234, &[0x76]);
    cpu.register_file.pc = 0x0100;
    cpu.register_file.sp = 0xFFFE;
    run(&mut cpu, &mut ram, 6);
    assert_eq!(cpu.register_file.pc, 0x1234);
    assert_eq!(cpu.register_file.sp, 0xFFFC);
    assert_eq!(ram.read(0xFFFD), Ok(0x01));
    assert_eq!(ram.read(0xFFFC), Ok(0x03));
    assert_eq!(cpu.current_instruction.name, InstructionName::Halt);
    run(&mut cpu, &mut ram, 1);
    assert!(!cpu.running);
    assert_eq!(cpu.register_file.pc, 0x1235);
}

#[test]
fn restart_goes_to_its_slot() {
    for slot in 0..8u16 {
        let mut cpu = cpu::init();
        let mut ram = ram::init();
        load(&mut ram, 0x0150, &[0xC7 | (slot as u8) << 3]);
        cpu.register_file.pc = 0x0150;
        cpu.register_file.sp = 0xD000;
        run(&mut cpu, &mut ram, 4);
        assert_eq!(cpu.register_file.pc, slot * 8);
        assert_eq!(cpu.register_file.sp, 0xCFFE);
        assert_eq!(ram.read(0xCFFF), Ok(0x01));
        assert_eq!(ram.read(0xCFFE), Ok(0x51));
    }
}

#[test]
fn stack_pointer_plus_offset() {
    let mut cpu = cpu::init();
    let mut ram = ram::init();
    // ADD SP,8 ; LD HL,SP-1 ; HALT
    load(&mut ram, 0x0000, &[0xE8, 0x08, 0xF8, 0xFF, 0x76]);
    cpu.register_file.sp = 0xFFF8;
    cpu.register_file.f = 0xC0;
    run(&mut cpu, &mut ram, 4);
    assert_eq!(cpu.register_file.sp, 0x0000);
    assert_eq!(cpu.register_file.f, 0x30);
    assert_eq!(cpu.register_file.pc, 0x0002);
    run(&mut cpu, &mut ram, 3);
    assert_eq!(cpu.register_file.hl(), 0xFFFF);
    assert_eq!(cpu.register_file.sp, 0x0000);
    assert_eq!(cpu.register_file.f, 0x00);
    assert_eq!(cpu.register_file.pc, 0x0004);

    let mut cpu = cpu::init();
    load(&mut ram, 0x0100, &[0xF8, 0x01]);
    cpu.register_file.pc = 0x0100;
    cpu.register_file.sp = 0x10FF;
    run(&mut cpu, &mut ram, 3);
    assert_eq!(cpu.register_file.hl(), 0x1100);
    assert_eq!(cpu.register_file.f, 0x30);
}

#[test]
fn decimal_adjust_after_add_and_sub() {
    let mut cpu = cpu::init();
    let mut ram = ram::init();
    // LD A,0x45 ; ADD A,0x38 ; DAA ; LD B,A ; LD A,0x99 ; ADD A,0x01 ; DAA ; LD C,A ;
    // LD A,0x42 ; SUB 0x05 ; DAA ; HALT
    load(
        &mut ram,
        0x0000,
        &[
            0x3E, 0x45, 0xC6, 0x38, 0x27, 0x47, 0x3E, 0x99, 0xC6, 0x01, 0x27, 0x4F, 0x3E, 0x42,
            0xD6, 0x05, 0x27, 0x76,
        ],
    );
    run(&mut cpu, &mut ram, 2 + 2 + 1 + 1);
    assert_eq!(cpu.register_file.b, 0x83);
    assert_eq!(cpu.register_file.f, 0x00);
    run(&mut cpu, &mut ram, 2 + 2 + 1);
    assert_eq!(cpu.register_file.a, 0x00);
    assert_eq!(cpu.register_file.f, 0x90);
    run_to_halt(&mut cpu, &mut ram);
    assert_eq!(cpu.register_file.c, 0x00);
    assert_eq!(cpu.register_file.a, 0x37);
    assert_eq!(cpu.register_file.f, 0x40);
}

#[test]
fn rotations_behind_the_escape_byte() {
    let mut cpu = cpu::init();
    let mut ram = ram::init();
    // RLC B ; SWAP (HL) ; SRA C ; SRL D ; HALT
    load(&mut ram, 0x0000, &[0xCB, 0x00, 0xCB, 0x36, 0xCB, 0x29, 0xCB, 0x3A, 0x76]);
    load(&mut ram, 0xC000, &[0xF1]);
    cpu.register_file.b = 0x85;
    cpu.register_file.c = 0x81;
    cpu.register_file.d = 0x01;
    cpu.register_file.h = 0xC0;
    run(&mut cpu, &mut ram, 2);
    assert_eq!(cpu.register_file.b, 0x0B);
    assert_eq!(cpu.register_file.f, 0x10);
    assert_eq!(cpu.register_file.pc, 0x0002);
    run(&mut cpu, &mut ram, 4);
    assert_eq!(ram.read(0xC000), Ok(0x1F));
    assert_eq!(cpu.register_file.f, 0x00);
    assert_eq!(cpu.register_file.pc, 0x0004);
    run(&mut cpu, &mut ram, 2);
    assert_eq!(cpu.register_file.c, 0xC0);
    assert_eq!(cpu.register_file.f, 0x10);
    run(&mut cpu, &mut ram, 2);
    assert_eq!(cpu.register_file.d, 0x00);
    assert_eq!(cpu.register_file.f, 0x90);
    assert_eq!(cpu.register_file.pc, 0x0008);
}

#[test]
fn bit_test_set_and_reset() {
    let mut cpu = cpu::init();
    let mut ram = ram::init();
    // BIT 7,H ; BIT 0,(HL) ; RES 0,A ; SET 7,(HL) ; HALT
    load(&mut ram, 0x0000, &[0xCB, 0x7C, 0xCB, 0x46, 0xCB, 0x87, 0xCB, 0xFE, 0x76]);
    load(&mut ram, 0xC000, &[0x01]);
    cpu.register_file.a = 0xFF;
    cpu.register_file.h = 0xC0;
    cpu.register_file.f = 0x50;
    run(&mut cpu, &mut ram, 2);
    assert_eq!(cpu.register_file.f, 0x30);
    run(&mut cpu, &mut ram, 3);
    assert_eq!(cpu.register_file.f, 0x30);
    run(&mut cpu, &mut ram, 2);
    assert_eq!(cpu.register_file.a, 0xFE);
    assert_eq!(cpu.register_file.f, 0x30);
    run(&mut cpu, &mut ram, 4);
    assert_eq!(ram.read(0xC000), Ok(0x81));
    assert_eq!(cpu.register_file.f, 0x30);
    assert_eq!(cpu.register_file.pc, 0x0008);

    let mut cpu = cpu::init();
    load(&mut ram, 0x0100, &[0xCB, 0x7C]);
    cpu.register_file.pc = 0x0100;
    cpu.register_file.h = 0x7F;
    run(&mut cpu, &mut ram, 2);
    assert_eq!(cpu.register_file.f, 0xA0);
}

#[test]
fn escape_byte_needs_its_second_byte() {
    let mut cpu = cpu::init();
    let mut ram = ram::init();
    load(&mut ram, 0xDFFF, &[0xCB]);
    cpu.register_file.pc = 0xDFFF;
    assert_eq!(cpu.tick(&mut ram), Err(CPUError::IllegalFetch));
    assert_eq!(cpu.register_file.pc, 0xDFFF);
    assert!(cpu.queue.is_empty());
    load(&mut ram, 0xFE9F, &[0xCB]);
    cpu.register_file.pc = 0xFE9F;
    assert_eq!(cpu.tick(&mut ram), Err(CPUError::IllegalFetch));
}

#[test]
fn condition_sees_the_flags_of_the_instruction_before() {
    let mut cpu = cpu::init();
    let mut ram = ram::init();
    // LD A,1 ; CP (HL) ; JR Z,+2 ; LD B,0xEE ; HALT, with (HL) holding 1. The
    // compare sets the flags on its last tick, beside the fetch of the jump.
    load(&mut ram, 0x0000, &[0x3E, 0x01, 0xBE, 0x28, 0x02, 0x06, 0xEE, 0x76]);
    load(&mut ram, 0xC000, &[0x01]);
    cpu.register_file.h = 0xC0;
    assert_eq!(run_to_halt(&mut cpu, &mut ram), 2 + 2 + 3 + 1);
    assert_eq!(cpu.register_file.b, 0x00);
    assert_eq!(cpu.register_file.f, 0xC0);
    assert_eq!(cpu.register_file.pc, 0x0008);
}

#[test]
fn conditional_jump_counts_down() {
    let mut cpu = cpu::init();
    let mut ram = ram::init();
    // LD B,3 ; loop: DEC B ; JR NZ,loop ; HALT
    load(&mut ram, 0x0000, &[0x06, 0x03, 0x05, 0x20, 0xFD, 0x76]);
    let ticks = run_to_halt(&mut cpu, &mut ram);
    assert_eq!(cpu.register_file.b, 0);
    assert_eq!(cpu.register_file.f, 0xC0);
    assert_eq!(cpu.register_file.pc, 0x0006);
    // The load, three decrements, two jumps taken and one not, and the halt.
    assert_eq!(ticks, 2 + 3 * 1 + 2 * 3 + 2 + 1);
}

#[test]
fn conditional_jump_taken_or_not() {
    for (opcode, f, taken) in [
        (0x20u8, 0x00u8, true),
        (0x20, 0x80, false),
        (0x28, 0x80, true),
        (0x28, 0x70, false),
        (0x30, 0xE0, true),
        (0x30, 0x10, false),
        (0x38, 0x10, true),
        (0x38, 0xE0, false),
    ] {
        let mut cpu = cpu::init();
        let mut ram = ram::init();
        load(&mut ram, 0x0100, &[opcode, 0x10]);
        cpu.register_file.pc = 0x0100;
        cpu.register_file.f = f;
        let cycles = if taken { 3 } else { 2 };
        run(&mut cpu, &mut ram, cycles - 1);
        assert_eq!(cpu.stage, CPUStage::FetchDecode);
        assert_eq!(cpu.register_file.pc, 0x0101);
        assert_eq!(cpu.current_instruction.name, InstructionName::JrCond);
        let flags = Flags::from_byte(f);
        assert_eq!(cpu.current_instruction.machine_cycles_given(flags), Some(cycles as u8));
        run(&mut cpu, &mut ram, 1);
        assert_eq!(cpu.register_file.pc, if taken { 0x0112 } else { 0x0102 });
        assert_eq!(cpu.register_file.f, f);
        assert_eq!(cpu.current_instruction.name, InstructionName::Nop);
    }
}

#[test]
fn call_and_conditional_return() {
    let mut cpu = cpu::init();
    let mut ram = ram::init();
    // CALL 0x0200 ; HALT
    load(&mut ram, 0x0100, &[0xCD, 0x00, 0x02, 0x76]);
    // XOR A ; RET NZ ; RET Z
    load(&mut ram, 0x0200, &[0xAF, 0xC0, 0xC8]);
    cpu.register_file.pc = 0x0100;
    cpu.register_file.sp = 0xD000;
    cpu.register_file.a = 0x5A;
    run(&mut cpu, &mut ram, 6);
    assert_eq!(cpu.register_file.pc, 0x0200);
    run(&mut cpu, &mut ram, 1);
    assert_eq!((cpu.register_file.a, cpu.register_file.f), (0x00, 0x80));
    // RET NZ is not taken: two cycles, and the stack stays as it is.
    run(&mut cpu, &mut ram, 2);
    assert_eq!(cpu.register_file.pc, 0x0202);
    assert_eq!(cpu.register_file.sp, 0xCFFE);
    // RET Z is taken: five cycles.
    run(&mut cpu, &mut ram, 4);
    assert_eq!(cpu.stage, CPUStage::FetchDecode);
    assert_eq!(cpu.register_file.sp, 0xD000);
    run(&mut cpu, &mut ram, 1);
    assert_eq!(cpu.register_file.pc, 0x0103);
    assert_eq!(cpu.current_instruction.name, InstructionName::Halt);
    run(&mut cpu, &mut ram, 1);
    assert!(!cpu.running);
    assert_eq!(cpu.register_file.pc, 0x0104);
}

#[test]
fn every_covered_opcode_runs() {
    for opcode in 0..=255u8 {
        for second in [0x00u8, 0x46, 0x7C, 0xFE, 0x36] {
            let mut cpu = cpu::init();
            let mut ram = ram::init();
            load(&mut ram, 0x0100, &[opcode, second]);
            cpu.register_file = seeded();
            let expected = match opcode {
                0xD3 | 0xDB | 0xDD | 0xE3 | 0xE4 | 0xEB | 0xEC | 0xED | 0xF4 | 0xFC | 0xFD => {
                    Err(CPUError::IllegalOpcode)
                }
                0x02 | 0x0A | 0x12 | 0x1A | 0x22 | 0x2A | 0x32 | 0x3A | 0xC2 | 0xC3 | 0xC4
                | 0xC9 | 0xCA | 0xCC | 0xD2 | 0xD4 | 0xD9 | 0xDA | 0xDC | 0xE9 | 0xF3 | 0xF9
                | 0xFB => Err(CPUError::UnimplementedOpcode),
                _ => Ok(()),
            };
            assert_eq!(cpu.tick(&mut ram), expected);
            if expected.is_err() {
                continue;
            }
            // Ticks until the hand-over: all cycles but the last, or the one.
            let mut ticks = 1;
            while cpu.stage == CPUStage::Execute {
                assert_eq!(cpu.tick(&mut ram), Ok(()));
                assert_eq!(cpu.register_file.f & 0x0F, 0);
                ticks += 1;
            }
            let flags = Flags::from_byte(seeded().f);
            let cycles = cpu.current_instruction.machine_cycles_given(flags).unwrap();
            assert_eq!(ticks, if cycles >= 2 { cycles - 1 } else { 1 });
            assert_eq!(cpu.stage, CPUStage::FetchDecode);
            assert_eq!(pending(&cpu).len(), if cycles >= 2 { 1 } else { 0 });
            if cycles >= 2 {
                assert_ne!(cpu.register_file.pc, 0x0100);
            }
            assert_eq!(cpu.running, opcode != 0x76 && opcode != 0x10);
        }
    }
}
