use sm83::cpu::{self, CPUStage, CPU};
use sm83::ram::{self, RAM};
use sm83::util::unsigned_16;

/// The state a single-step vector names before and after its instruction.
struct State {
    pc: u16,
    sp: u16,
    a: u8,
    b: u8,
    c: u8,
    d: u8,
    e: u8,
    f: u8,
    h: u8,
    l: u8,
    cells: Vec<(u16, u8)>,
}

struct Vector {
    name: &'static str,
    initial: State,
    expected: State,
    cycles: usize,
}

fn run_vector(processor: &mut CPU, memory: &mut RAM, vector: &Vector) {
    let initial = &vector.initial;
    processor.register_file.a = initial.a;
    processor.register_file.f = initial.f;
    processor.register_file.b = initial.b;
    processor.register_file.c = initial.c;
    processor.register_file.d = initial.d;
    processor.register_file.e = initial.e;
    processor.register_file.h = initial.h;
    processor.register_file.l = initial.l;
    processor.register_file.sp = initial.sp;
    processor.register_file.pc = initial.pc;
    processor.running = true;
    processor.stage = CPUStage::FetchDecode;
    processor.queue.clear();
    for (address, value) in &initial.cells {
        memory._write(*value, *address).unwrap();
    }

    for _ in 0..vector.cycles {
        processor.tick(memory).unwrap();
    }

    let expected = &vector.expected;
    let registers = &processor.register_file;
    let name = vector.name;
    assert_eq!(unsigned_16(registers.a, registers.f), unsigned_16(expected.a, expected.f), "{}", name);
    assert_eq!(unsigned_16(registers.b, registers.c), unsigned_16(expected.b, expected.c), "{}", name);
    assert_eq!(unsigned_16(registers.d, registers.e), unsigned_16(expected.d, expected.e), "{}", name);
    assert_eq!(unsigned_16(registers.h, registers.l), unsigned_16(expected.h, expected.l), "{}", name);
    assert_eq!(registers.sp, expected.sp, "{}", name);
    assert_eq!(registers.pc, expected.pc, "{}", name);
    for (address, value) in &expected.cells {
        assert_eq!(memory.read(*address), Ok(*value), "{} at {:#06X}", name, address);
    }
}

fn state(pc: u16, sp: u16, registers: [u8; 8], cells: &[(u16, u8)]) -> State {
    let [a, b, c, d, e, f, h, l] = registers;
    State { pc, sp, a, b, c, d, e, f, h, l, cells: cells.to_vec() }
}

#[test]
fn single_step_vectors() {
    let mut processor = cpu::init();
    let mut memory = ram::configured(true, true);
    let r = [0x6E, 0xB9, 0x90, 0xD0, 0xBE, 0x60, 0x83, 0x93];
    let vectors = [
        Vector {
            name: "00",
            initial: state(0x4DDF, 0xE82E, r, &[(0x4DDF, 0x00)]),
            expected: state(0x4DE0, 0xE82E, r, &[(0x4DDF, 0x00)]),
            cycles: 1,
        },
        Vector {
            name: "76",
            initial: state(0x0050, 0x1000, r, &[(0x0050, 0x76)]),
            expected: state(0x0051, 0x1000, r, &[(0x0050, 0x76)]),
            cycles: 1,
        },
        Vector {
            name: "08",
            initial: state(0x0200, 0x1234, r, &[(0x0200, 0x08), (0x0201, 0x00), (0x0202, 0xC0)]),
            expected: state(0x0203, 0x1234, r, &[(0xC000, 0x34), (0xC001, 0x12)]),
            cycles: 5,
        },
        Vector {
            name: "80",
            initial: state(0x0300, 0x1234, [0x3A, 0xC6, 0, 0, 0, 0x00, 0, 0], &[(0x0300, 0x80)]),
            expected: state(0x0301, 0x1234, [0x00, 0xC6, 0, 0, 0, 0xB0, 0, 0], &[]),
            cycles: 1,
        },
        Vector {
            name: "cb 36",
            initial: state(
                0x0400,
                0x1234,
                [0, 0, 0, 0, 0, 0x10, 0xC1, 0x00],
                &[(0x0400, 0xCB), (0x0401, 0x36), (0xC100, 0xA5)],
            ),
            expected: state(0x0402, 0x1234, [0, 0, 0, 0, 0, 0x00, 0xC1, 0x00], &[(0xC100, 0x5A)]),
            cycles: 4,
        },
        Vector {
            name: "e0",
            initial: state(
                0x0500,
                0x1234,
                [0x77, 0, 0, 0, 0, 0x00, 0, 0],
                &[(0x0500, 0xE0), (0x0501, 0x80)],
            ),
            expected: state(0x0502, 0x1234, [0x77, 0, 0, 0, 0, 0x00, 0, 0], &[(0xFF80, 0x77)]),
            cycles: 3,
        },
        Vector {
            name: "e8",
            initial: state(
                0x0600,
                0x00FF,
                [0, 0, 0, 0, 0, 0xF0, 0, 0],
                &[(0x0600, 0xE8), (0x0601, 0x01)],
            ),
            expected: state(0x0602, 0x0100, [0, 0, 0, 0, 0, 0x30, 0, 0], &[]),
            cycles: 4,
        },
        Vector {
            name: "f0",
            initial: state(
                0x0700,
                0x1234,
                [0x00, 0, 0, 0, 0, 0x00, 0, 0],
                &[(0x0700, 0xF0), (0x0701, 0x80)],
            ),
            expected: state(0x0702, 0x1234, [0x77, 0, 0, 0, 0, 0x00, 0, 0], &[]),
            cycles: 3,
        },
    ];
    for vector in &vectors {
        run_vector(&mut processor, &mut memory, vector);
    }
}
