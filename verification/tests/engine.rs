use gbcpu::memory::{new, Memory};
use gbcpu::vm::{
    decode, fetch, ExecError, Family, Op, Registers, RunState, F_CARRY, F_HALF_CARRY,
    F_SUBTRACTION, F_ZERO, R8, VM,
};

const Z: u8 = F_ZERO;
const N: u8 = F_SUBTRACTION;
const H: u8 = F_HALF_CARRY;
const C: u8 = F_CARRY;

/// A processor at power-on with the program counter at `origin`, and a
/// memory that holds `program` from `origin` on.
fn boot(origin: u16, program: &[u8]) -> (VM, Memory) {
    let mut mem = new();
    let mut addr = origin;
    for byte in program {
        mem.write_byte(addr, *byte);
        addr = addr.wrapping_add(1);
    }
    let mut vm = VM::new();
    vm.registers.pc = origin;
    (vm, mem)
}

/// Executes `count` instructions and checks that each one succeeds.
fn run(vm: &mut VM, mem: &mut Memory, count: usize) {
    for _ in 0..count {
        assert!(vm.execute(mem).is_ok());
    }
}

#[test]
fn power_on_state() {
    let vm = VM::new();
    assert_eq!(vm.registers, Registers { af: 0, bc: 0, de: 0, hl: 0, sp: 0, pc: 0 });
    assert!(!vm.ime);
    assert_eq!(vm.state, RunState::Running);
}

#[test]
fn load_then_add_end_to_end() {
    let (mut vm, mut mem) = boot(0x1000, &[0x3E, 0x05, 0xC6, 0x03]);
    assert_eq!(vm.step(&mut mem, 0x1000), Ok(2));
    assert_eq!(vm.registers.a(), 5);
    assert_eq!(vm.registers.pc, 0x1002);
    assert_eq!(vm.step(&mut mem, 0x1002), Ok(2));
    assert_eq!(vm.registers.a(), 8);
    assert!(!vm.registers.flag_val(Z));
    assert!(!vm.registers.flag_val(C));
    assert!(!vm.registers.flag_val(H));
    assert!(!vm.registers.flag_val(N));
    assert_eq!(vm.registers.f(), 0);
    assert_eq!(vm.registers.pc, 0x1004);
}

#[test]
fn load_then_add_with_execute() {
    let (mut vm, mut mem) = boot(0x1000, &[0x3E, 0x05, 0xC6, 0x03]);
    assert_eq!(vm.execute(&mut mem), Ok(2));
    assert_eq!(vm.execute(&mut mem), Ok(2));
    assert_eq!(vm.registers.a(), 8);
    assert_eq!(vm.registers.f(), 0);
    assert_eq!(vm.registers.pc, 0x1004);
}

#[test]
fn nop_only_moves_the_program_counter() {
    let (mut vm, mut mem) = boot(0x0100, &[0x00]);
    vm.registers = Registers { af: 0x12B0, bc: 1, de: 2, hl: 3, sp: 4, pc: 0x0100 };
    assert_eq!(vm.execute(&mut mem), Ok(1));
    assert_eq!(vm.registers, Registers { af: 0x12B0, bc: 1, de: 2, hl: 3, sp: 4, pc: 0x0101 });
}

#[test]
fn program_counter_wraps() {
    let (mut vm, mut mem) = boot(0xFFFF, &[0x3E, 0x42]);
    assert_eq!(vm.execute(&mut mem), Ok(2));
    assert_eq!(vm.registers.a(), 0x42);
    assert_eq!(vm.registers.pc, 0x0001);
}

#[test]
fn invalid_instruction_is_reported_and_changes_nothing() {
    for opcode in [0xD3u8, 0xDB, 0xDD, 0xE3, 0xE4, 0xEB, 0xEC, 0xED, 0xF4, 0xFC, 0xFD] {
        let (mut vm, mut mem) = boot(0x0200, &[opcode, 0x12, 0x34]);
        vm.registers = Registers { af: 0x12B0, bc: 1, de: 2, hl: 3, sp: 4, pc: 0x0200 };
        let before = vm;
        let memory_before = mem.0;
        assert_eq!(
            vm.execute(&mut mem),
            Err(ExecError::InvalidInstruction { addr: 0x0200, opcode })
        );
        assert_eq!(vm, before);
        assert!(mem.0 == memory_before);
    }
}

#[test]
fn step_on_invalid_instruction_keeps_the_program_counter() {
    let (mut vm, mut mem) = boot(0x0200, &[0xDD]);
    vm.registers.pc = 0x1234;
    let before = vm;
    assert_eq!(
        vm.step(&mut mem, 0x0200),
        Err(ExecError::InvalidInstruction { addr: 0x0200, opcode: 0xDD })
    );
    assert_eq!(vm, before);
}

#[test]
fn fetch_reads_through_the_prefix() {
    let (_, mem) = boot(0x0100, &[0xCB, 0x37, 0x00, 0xED]);
    assert_eq!(fetch(&mem, 0x0100), Op::CBSwapR8 { op: R8::A });
    assert_eq!(fetch(&mem, 0x0101), Op::Scf);
    assert_eq!(fetch(&mem, 0x0102), Op::Nop);
    assert_eq!(fetch(&mem, 0x0103), Op::Invalid);
}

#[test]
fn load_sixteen_bit_immediates() {
    let (mut vm, mut mem) = boot(
        0x0100,
        &[0x01, 0x34, 0x12, 0x11, 0x78, 0x56, 0x21, 0xBC, 0x9A, 0x31, 0xFE, 0xFF],
    );
    assert_eq!(vm.execute(&mut mem), Ok(3));
    assert_eq!(vm.execute(&mut mem), Ok(3));
    assert_eq!(vm.execute(&mut mem), Ok(3));
    assert_eq!(vm.execute(&mut mem), Ok(3));
    assert_eq!(
        vm.registers,
        Registers { af: 0, bc: 0x1234, de: 0x5678, hl: 0x9ABC, sp: 0xFFFE, pc: 0x010C }
    );
}

#[test]
fn load_eight_bit_immediates_to_every_operand() {
    let (mut vm, mut mem) = boot(
        0x0100,
        &[
            0x06, 0x01, 0x0E, 0x02, 0x16, 0x03, 0x1E, 0x04, 0x26, 0xC0, 0x2E, 0x06, 0x36, 0x07,
            0x3E, 0x08,
        ],
    );
    for _ in 0..8 {
        assert_eq!(vm.execute(&mut mem), Ok(2));
    }
    assert_eq!(vm.registers.bc, 0x0102);
    assert_eq!(vm.registers.de, 0x0304);
    assert_eq!(vm.registers.hl, 0xC006);
    assert_eq!(mem.read_byte(0xC006), 0x07);
    assert_eq!(vm.registers.af, 0x0800);
    assert_eq!(vm.registers.pc, 0x0110);
}

#[test]
fn register_to_register_loads_and_memory_operand() {
    // LD HL,0xC000; LD B,0x5A; LD (HL),B; LD C,(HL); LD A,C; LD H,A
    let (mut vm, mut mem) =
        boot(0x0100, &[0x21, 0x00, 0xC0, 0x06, 0x5A, 0x70, 0x4E, 0x79, 0x67]);
    run(&mut vm, &mut mem, 3);
    assert_eq!(mem.read_byte(0xC000), 0x5A);
    assert_eq!(vm.execute(&mut mem), Ok(1));
    assert_eq!(vm.registers.c(), 0x5A);
    run(&mut vm, &mut mem, 2);
    assert_eq!(vm.registers.a(), 0x5A);
    assert_eq!(vm.registers.hl, 0x5A00);
    assert_eq!(vm.registers.f(), 0);
}

#[test]
fn indirect_stores_step_hl_after_the_access() {
    // LD HL,0xC000; LD A,0x11; LD (HL+),A; LD A,0x22; LD (HL-),A; LD (HL-),A
    let (mut vm, mut mem) =
        boot(0x0100, &[0x21, 0x00, 0xC0, 0x3E, 0x11, 0x22, 0x3E, 0x22, 0x32, 0x32]);
    run(&mut vm, &mut mem, 3);
    assert_eq!(mem.read_byte(0xC000), 0x11);
    assert_eq!(vm.registers.hl, 0xC001);
    run(&mut vm, &mut mem, 2);
    assert_eq!(mem.read_byte(0xC001), 0x22);
    assert_eq!(vm.registers.hl, 0xC000);
    run(&mut vm, &mut mem, 1);
    assert_eq!(mem.read_byte(0xC000), 0x22);
    assert_eq!(vm.registers.hl, 0xBFFF);
}

#[test]
fn indirect_loads_through_every_pointer() {
    // LD A,(BC); LD A,(DE); LD A,(HL+); LD A,(HL-)
    let (mut vm, mut mem) = boot(0x0100, &[0x0A, 0x1A, 0x2A, 0x3A]);
    vm.registers.bc = 0xC000;
    vm.registers.de = 0xC001;
    vm.registers.hl = 0xFFFF;
    mem.write_byte(0xC000, 0xA1);
    mem.write_byte(0xC001, 0xA2);
    mem.write_byte(0xFFFF, 0xA3);
    mem.write_byte(0x0000, 0xA4);
    assert_eq!(vm.execute(&mut mem), Ok(1));
    assert_eq!(vm.registers.a(), 0xA1);
    assert_eq!(vm.execute(&mut mem), Ok(1));
    assert_eq!(vm.registers.a(), 0xA2);
    assert_eq!(vm.execute(&mut mem), Ok(1));
    assert_eq!(vm.registers.a(), 0xA3);
    assert_eq!(vm.registers.hl, 0x0000);
    assert_eq!(vm.execute(&mut mem), Ok(1));
    assert_eq!(vm.registers.a(), 0xA4);
    assert_eq!(vm.registers.hl, 0xFFFF);
    assert_eq!(vm.registers.bc, 0xC000);
    assert_eq!(vm.registers.de, 0xC001);
}

#[test]
fn indirect_stores_through_bc_and_de() {
    // LD (BC),A; LD (DE),A
    let (mut vm, mut mem) = boot(0x0100, &[0x02, 0x12]);
    vm.registers.af = 0x7700;
    vm.registers.bc = 0xC010;
    vm.registers.de = 0xC020;
    run(&mut vm, &mut mem, 2);
    assert_eq!(mem.read_byte(0xC010), 0x77);
    assert_eq!(mem.read_byte(0xC020), 0x77);
    assert_eq!(vm.registers.bc, 0xC010);
    assert_eq!(vm.registers.de, 0xC020);
}

#[test]
fn store_stack_pointer_little_endian() {
    // LD (0xC100),SP
    let (mut vm, mut mem) = boot(0x0100, &[0x08, 0x00, 0xC1]);
    vm.registers.sp = 0xFFF8;
    assert_eq!(vm.execute(&mut mem), Ok(3));
    assert_eq!(mem.read_byte(0xC100), 0xF8);
    assert_eq!(mem.read_byte(0xC101), 0xFF);
    assert_eq!(vm.registers.sp, 0xFFF8);
}

#[test]
fn high_page_loads_and_stores() {
    // LD C,0x80; LD A,0x5A; LDH (C),A; LDH (0x81),A; LD A,0; LDH A,(C); LD A,0; LDH A,(0x81)
    let (mut vm, mut mem) = boot(
        0x0100,
        &[
            0x0E, 0x80, 0x3E, 0x5A, 0xE2, 0xE0, 0x81, 0x3E, 0x00, 0xF2, 0x3E, 0x00, 0xF0, 0x81,
        ],
    );
    run(&mut vm, &mut mem, 2);
    assert_eq!(vm.execute(&mut mem), Ok(1));
    assert_eq!(mem.read_byte(0xFF80), 0x5A);
    assert_eq!(vm.execute(&mut mem), Ok(2));
    assert_eq!(mem.read_byte(0xFF81), 0x5A);
    run(&mut vm, &mut mem, 1);
    assert_eq!(vm.execute(&mut mem), Ok(1));
    assert_eq!(vm.registers.a(), 0x5A);
    run(&mut vm, &mut mem, 1);
    mem.write_byte(0xFF81, 0xA5);
    assert_eq!(vm.execute(&mut mem), Ok(2));
    assert_eq!(vm.registers.a(), 0xA5);
}

#[test]
fn absolute_loads_and_stores_of_the_accumulator() {
    // LD A,0x99; LD (0xC234),A; LD A,0; LD A,(0xC234)
    let (mut vm, mut mem) =
        boot(0x0100, &[0x3E, 0x99, 0xEA, 0x34, 0xC2, 0x3E, 0x00, 0xFA, 0x34, 0xC2]);
    run(&mut vm, &mut mem, 1);
    assert_eq!(vm.execute(&mut mem), Ok(3));
    assert_eq!(mem.read_byte(0xC234), 0x99);
    run(&mut vm, &mut mem, 1);
    assert_eq!(vm.registers.a(), 0);
    assert_eq!(vm.execute(&mut mem), Ok(3));
    assert_eq!(vm.registers.a(), 0x99);
    assert_eq!(vm.registers.pc, 0x010A);
}

#[test]
fn stack_pointer_loads() {
    // LD HL,0x1234; LD SP,HL; LD HL,SP+0xFE; LD HL,SP+0x02
    let (mut vm, mut mem) = boot(0x0100, &[0x21, 0x34, 0x12, 0xF9, 0xF8, 0xFE, 0xF8, 0x02]);
    run(&mut vm, &mut mem, 1);
    assert_eq!(vm.execute(&mut mem), Ok(1));
    assert_eq!(vm.registers.sp, 0x1234);
    assert_eq!(vm.execute(&mut mem), Ok(2));
    assert_eq!(vm.registers.hl, 0x1232);
    assert_eq!(vm.registers.sp, 0x1234);
    assert_eq!(vm.registers.f(), H | C);
    assert_eq!(vm.execute(&mut mem), Ok(2));
    assert_eq!(vm.registers.hl, 0x1236);
    assert_eq!(vm.registers.f(), 0);
}

#[test]
fn add_to_stack_pointer() {
    // ADD SP,0x02; ADD SP,0xFF
    let (mut vm, mut mem) = boot(0x0100, &[0xE8, 0x02, 0xE8, 0xFF]);
    vm.registers.sp = 0xFFF8;
    vm.registers.af = 0x00F0;
    assert_eq!(vm.execute(&mut mem), Ok(2));
    assert_eq!(vm.registers.sp, 0xFFFA);
    assert_eq!(vm.registers.f(), 0);
    assert_eq!(vm.execute(&mut mem), Ok(2));
    assert_eq!(vm.registers.sp, 0xFFF9);
    assert_eq!(vm.registers.f(), H | C);
}

#[test]
fn sixteen_bit_increments_touch_no_flag() {
    // INC BC; INC DE; INC HL; INC SP; DEC BC; DEC DE; DEC HL; DEC SP
    let (mut vm, mut mem) = boot(0x0100, &[0x03, 0x13, 0x23, 0x33, 0x0B, 0x1B, 0x2B, 0x3B]);
    vm.registers = Registers {
        af: 0x55F0, bc: 0xFFFF, de: 0x00FF,
        hl: 0x0000, sp: 0x7FFF, pc: 0x0100,
    };
    run(&mut vm, &mut mem, 4);
    assert_eq!(
        vm.registers,
        Registers { af: 0x55F0, bc: 0x0000, de: 0x0100, hl: 0x0001, sp: 0x8000, pc: 0x0104 }
    );
    run(&mut vm, &mut mem, 4);
    assert_eq!(
        vm.registers,
        Registers { af: 0x55F0, bc: 0xFFFF, de: 0x00FF, hl: 0x0000, sp: 0x7FFF, pc: 0x0108 }
    );
}

#[test]
fn add_to_hl_keeps_zero() {
    // ADD HL,BC; ADD HL,HL; ADD HL,SP; ADD HL,DE
    let (mut vm, mut mem) = boot(0x0100, &[0x09, 0x29, 0x39, 0x19]);
    vm.registers = Registers {
        af: 0x00C0, bc: 0x0605, de: 0x0001,
        hl: 0x8A23, sp: 0xDFB0, pc: 0x0100,
    };
    assert_eq!(vm.execute(&mut mem), Ok(1));
    assert_eq!(vm.registers.hl, 0x9028);
    assert_eq!(vm.registers.f(), Z | H);
    assert_eq!(vm.execute(&mut mem), Ok(1));
    assert_eq!(vm.registers.hl, 0x2050);
    assert_eq!(vm.registers.f(), Z | C);
    assert_eq!(vm.execute(&mut mem), Ok(1));
    assert_eq!(vm.registers.hl, 0x0000);
    assert_eq!(vm.registers.f(), Z | H | C);
    assert_eq!(vm.execute(&mut mem), Ok(1));
    assert_eq!(vm.registers.hl, 0x0001);
    assert_eq!(vm.registers.f(), Z);
    assert_eq!(vm.registers.bc, 0x0605);
}

#[test]
fn eight_bit_increment_keeps_carry() {
    // INC A; INC B; DEC C; DEC A
    let (mut vm, mut mem) = boot(0x0100, &[0x3C, 0x04, 0x0D, 0x3D]);
    vm.registers = Registers { af: 0xFF10, bc: 0x0F01, ..vm.registers };
    assert_eq!(vm.execute(&mut mem), Ok(1));
    assert_eq!(vm.registers.a(), 0x00);
    assert_eq!(vm.registers.f(), Z | H | C);
    assert_eq!(vm.execute(&mut mem), Ok(1));
    assert_eq!(vm.registers.b(), 0x10);
    assert_eq!(vm.registers.f(), H | C);
    assert_eq!(vm.execute(&mut mem), Ok(1));
    assert_eq!(vm.registers.c(), 0x00);
    assert_eq!(vm.registers.f(), Z | N | C);
    assert_eq!(vm.execute(&mut mem), Ok(1));
    assert_eq!(vm.registers.a(), 0xFF);
    assert_eq!(vm.registers.f(), N | H | C);
}

#[test]
fn increment_of_the_byte_at_hl() {
    // INC (HL); INC (HL); DEC (HL)
    let (mut vm, mut mem) = boot(0x0100, &[0x34, 0x34, 0x35]);
    vm.registers.hl = 0xC000;
    mem.write_byte(0xC000, 0xFE);
    assert_eq!(vm.execute(&mut mem), Ok(1));
    assert_eq!(mem.read_byte(0xC000), 0xFF);
    assert_eq!(vm.registers.f(), 0);
    assert_eq!(vm.execute(&mut mem), Ok(1));
    assert_eq!(mem.read_byte(0xC000), 0x00);
    assert_eq!(vm.registers.f(), Z | H);
    assert_eq!(vm.execute(&mut mem), Ok(1));
    assert_eq!(mem.read_byte(0xC000), 0xFF);
    assert_eq!(vm.registers.f(), N | H);
    assert_eq!(vm.registers.hl, 0xC000);
    assert_eq!(vm.registers.a(), 0);
}

#[test]
fn accumulator_arithmetic_with_registers() {
    // ADD A,B; ADC A,C; SUB D; SBC A,E; AND H; XOR L; OR B; CP C
    let (mut vm, mut mem) = boot(0x0100, &[0x80, 0x89, 0x92, 0x9B, 0xA4, 0xAD, 0xB0, 0xB9]);
    vm.registers = Registers { af: 0x3A00, bc: 0xC60F, de: 0x1001, hl: 0xF00F, sp: 0, pc: 0x0100 };
    assert_eq!(vm.execute(&mut mem), Ok(1));
    assert_eq!(vm.registers.af, 0x0000 | (Z | H | C) as u16);
    assert_eq!(vm.execute(&mut mem), Ok(1));
    assert_eq!(vm.registers.af, 0x1000 | H as u16);
    assert_eq!(vm.execute(&mut mem), Ok(1));
    assert_eq!(vm.registers.af, 0x0000 | (Z | N) as u16);
    assert_eq!(vm.execute(&mut mem), Ok(1));
    assert_eq!(vm.registers.af, 0xFF00 | (N | H | C) as u16);
    assert_eq!(vm.execute(&mut mem), Ok(1));
    assert_eq!(vm.registers.af, 0xF000);
    assert_eq!(vm.execute(&mut mem), Ok(1));
    assert_eq!(vm.registers.af, 0xFF00);
    assert_eq!(vm.execute(&mut mem), Ok(1));
    assert_eq!(vm.registers.af, 0xFF00);
    assert_eq!(vm.execute(&mut mem), Ok(1));
    assert_eq!(vm.registers.af, 0xFF00 | N as u16);
    assert_eq!(vm.registers.bc, 0xC60F);
    assert_eq!(vm.registers.de, 0x1001);
    assert_eq!(vm.registers.hl, 0xF00F);
}

#[test]
fn accumulator_arithmetic_with_the_byte_at_hl() {
    // ADD A,(HL); CP (HL); SUB (HL)
    let (mut vm, mut mem) = boot(0x0100, &[0x86, 0xBE, 0x96]);
    vm.registers.hl = 0xC000;
    vm.registers.af = 0x3C00;
    mem.write_byte(0xC000, 0x12);
    assert_eq!(vm.execute(&mut mem), Ok(1));
    assert_eq!(vm.registers.af, 0x4E00);
    mem.write_byte(0xC000, 0x4E);
    assert_eq!(vm.execute(&mut mem), Ok(1));
    assert_eq!(vm.registers.af, 0x4E00 | (Z | N) as u16);
    mem.write_byte(0xC000, 0x4F);
    assert_eq!(vm.execute(&mut mem), Ok(1));
    assert_eq!(vm.registers.af, 0xFF00 | (N | H | C) as u16);
    assert_eq!(mem.read_byte(0xC000), 0x4F);
}

#[test]
fn accumulator_arithmetic_with_immediates() {
    // ADD 0xFF; ADC 0x00; SUB 0x02; SBC 0x00; AND 0x0F; XOR 0x0F; OR 0x80; CP 0x81
    let (mut vm, mut mem) = boot(
        0x0100,
        &[
            0xC6, 0xFF, 0xCE, 0x00, 0xD6, 0x02, 0xDE, 0x00, 0xE6, 0x0F, 0xEE, 0x0F, 0xF6, 0x80,
            0xFE, 0x81,
        ],
    );
    vm.registers.af = 0x0100;
    assert_eq!(vm.execute(&mut mem), Ok(2));
    assert_eq!(vm.registers.af, 0x0000 | (Z | H | C) as u16);
    assert_eq!(vm.execute(&mut mem), Ok(2));
    assert_eq!(vm.registers.af, 0x0100);
    assert_eq!(vm.execute(&mut mem), Ok(2));
    assert_eq!(vm.registers.af, 0xFF00 | (N | H | C) as u16);
    assert_eq!(vm.execute(&mut mem), Ok(2));
    assert_eq!(vm.registers.af, 0xFE00 | N as u16);
    assert_eq!(vm.execute(&mut mem), Ok(2));
    assert_eq!(vm.registers.af, 0x0E00);
    assert_eq!(vm.execute(&mut mem), Ok(2));
    assert_eq!(vm.registers.af, 0x0100);
    assert_eq!(vm.execute(&mut mem), Ok(2));
    assert_eq!(vm.registers.af, 0x8100);
    assert_eq!(vm.execute(&mut mem), Ok(2));
    assert_eq!(vm.registers.af, 0x8100 | (Z | N) as u16);
    assert_eq!(vm.registers.pc, 0x0110);
}

#[test]
fn compare_leaves_the_accumulator() {
    // CP 0x40; CP 0x2F; CP 0x3C
    let (mut vm, mut mem) = boot(0x0100, &[0xFE, 0x40, 0xFE, 0x2F, 0xFE, 0x3C]);
    vm.registers.af = 0x3C00;
    run(&mut vm, &mut mem, 1);
    assert_eq!(vm.registers.af, 0x3C00 | (N | C) as u16);
    run(&mut vm, &mut mem, 1);
    assert_eq!(vm.registers.af, 0x3C00 | (N | H) as u16);
    run(&mut vm, &mut mem, 1);
    assert_eq!(vm.registers.af, 0x3C00 | (Z | N) as u16);
}

#[test]
fn accumulator_rotates_clear_subtract_and_half_carry() {
    // RLCA; RRCA; RLA; RRA
    let (mut vm, mut mem) = boot(0x0100, &[0x07, 0x0F, 0x17, 0x1F]);
    vm.registers.af = 0x8060;
    assert_eq!(vm.execute(&mut mem), Ok(1));
    assert_eq!(vm.registers.af, 0x0100 | C as u16);
    assert_eq!(vm.execute(&mut mem), Ok(1));
    assert_eq!(vm.registers.af, 0x8000 | C as u16);
    assert_eq!(vm.execute(&mut mem), Ok(1));
    assert_eq!(vm.registers.af, 0x0100 | C as u16);
    assert_eq!(vm.execute(&mut mem), Ok(1));
    assert_eq!(vm.registers.af, 0x8000 | C as u16);
}

#[test]
fn accumulator_rotates_leave_zero_as_it_was() {
    // RLCA; RLA; RRA; RRCA
    let (mut vm, mut mem) = boot(0x0100, &[0x07, 0x17, 0x1F, 0x0F]);
    vm.registers.af = 0x0080;
    assert_eq!(vm.execute(&mut mem), Ok(1));
    assert_eq!(vm.registers.af, 0x0000 | Z as u16);
    vm.registers.af = 0x8000;
    assert_eq!(vm.execute(&mut mem), Ok(1));
    assert_eq!(vm.registers.af, 0x0000 | C as u16);
    vm.registers.af = 0x0100 | (Z | N | H) as u16;
    assert_eq!(vm.execute(&mut mem), Ok(1));
    assert_eq!(vm.registers.af, 0x0000 | (Z | C) as u16);
    vm.registers.af = 0x0200 | (Z | C) as u16;
    assert_eq!(vm.execute(&mut mem), Ok(1));
    assert_eq!(vm.registers.af, 0x0100 | Z as u16);
}

#[test]
fn rotate_left_circular_of_0x80() {
    // RLC B, then seven more
    let program = [0xCB, 0x00].repeat(8);
    let (mut vm, mut mem) = boot(0x0100, &program);
    vm.registers.bc = 0x8000;
    assert_eq!(vm.execute(&mut mem), Ok(2));
    assert_eq!(vm.registers.b(), 0x01);
    assert!(vm.registers.flag_val(C));
    assert_eq!(vm.registers.f(), C);
    for _ in 0..7 {
        assert_eq!(vm.execute(&mut mem), Ok(2));
    }
    assert_eq!(vm.registers.b(), 0x80);
    assert!(!vm.registers.flag_val(C));
    assert_eq!(vm.registers.pc, 0x0110);
}

#[test]
fn rotate_left_circular_eight_times_restores_the_register() {
    let program = [0xCB, 0x07].repeat(8);
    for start in [0x00u8, 0x01, 0x81, 0xFF, 0x7E, 0xA5, 0xC3] {
        let (mut vm, mut mem) = boot(0x0100, &program);
        vm.registers.set_a(start);
        run(&mut vm, &mut mem, 8);
        assert_eq!(vm.registers.a(), start);
        assert_eq!(vm.registers.flag_val(C), start & 0x01 != 0);
        if (start & 0x01 != 0) == (start & 0x80 != 0) {
            assert_eq!(vm.registers.flag_val(C), start & 0x80 != 0);
        }
    }
}

#[test]
fn decimal_adjust_instruction_after_nine_plus_one() {
    // LD A,0x09; ADD A,0x01; DAA
    let (mut vm, mut mem) = boot(0x0100, &[0x3E, 0x09, 0xC6, 0x01, 0x27]);
    run(&mut vm, &mut mem, 2);
    assert_eq!(vm.registers.a(), 0x0A);
    assert_eq!(vm.execute(&mut mem), Ok(1));
    assert_eq!(vm.registers.a(), 0x10);
    assert_eq!(vm.registers.f(), 0);
}

#[test]
fn decimal_adjust_instruction_after_subtraction() {
    // LD A,0x83; SUB 0x38; DAA
    let (mut vm, mut mem) = boot(0x0100, &[0x3E, 0x83, 0xD6, 0x38, 0x27]);
    run(&mut vm, &mut mem, 3);
    assert_eq!(vm.registers.a(), 0x45);
    assert_eq!(vm.registers.f(), N);
}

#[test]
fn complement_and_carry_instructions() {
    // CPL; SCF; CCF; CCF
    let (mut vm, mut mem) = boot(0x0100, &[0x2F, 0x37, 0x3F, 0x3F]);
    vm.registers.af = 0x3580;
    run(&mut vm, &mut mem, 1);
    assert_eq!(vm.registers.af, 0xCA00 | (Z | N | H) as u16);
    run(&mut vm, &mut mem, 1);
    assert_eq!(vm.registers.af, 0xCA00 | (Z | C) as u16);
    run(&mut vm, &mut mem, 1);
    assert_eq!(vm.registers.af, 0xCA00 | Z as u16);
    run(&mut vm, &mut mem, 1);
    assert_eq!(vm.registers.af, 0xCA00 | (Z | C) as u16);
}

#[test]
fn absolute_jumps() {
    // JP 0x0200 ... at 0x0200: JP HL
    let (mut vm, mut mem) = boot(0x0100, &[0xC3, 0x00, 0x02]);
    mem.write_byte(0x0200, 0xE9);
    vm.registers.hl = 0x4321;
    assert_eq!(vm.execute(&mut mem), Ok(3));
    assert_eq!(vm.registers.pc, 0x0200);
    assert_eq!(vm.execute(&mut mem), Ok(1));
    assert_eq!(vm.registers.pc, 0x4321);
}

#[test]
fn conditional_jump_not_taken_falls_through() {
    // JP NZ / JP Z / JP NC / JP C with the condition false
    let cases: [(u8, u8); 4] = [(0xC2, Z), (0xCA, 0), (0xD2, C), (0xDA, 0)];
    for (opcode, flags) in cases {
        let (mut vm, mut mem) = boot(0x0100, &[opcode, 0x00, 0x80]);
        vm.registers.af = 0x1200 | flags as u16;
        let before = vm.registers;
        assert_eq!(vm.execute(&mut mem), Ok(3));
        assert_eq!(vm.registers, Registers { pc: 0x0103, ..before });
    }
}

#[test]
fn conditional_jump_taken_goes_to_the_target() {
    let cases: [(u8, u8); 4] = [(0xC2, 0), (0xCA, Z), (0xD2, 0), (0xDA, C)];
    for (opcode, flags) in cases {
        let (mut vm, mut mem) = boot(0x0100, &[opcode, 0x34, 0x80]);
        vm.registers.af = 0x1200 | flags as u16;
        let before = vm.registers;
        assert_eq!(vm.execute(&mut mem), Ok(3));
        assert_eq!(vm.registers, Registers { pc: 0x8034, ..before });
    }
}

#[test]
fn relative_jumps_count_from_the_next_instruction() {
    // JR +5; at 0x0107: JR -9 (0xF7) -> 0x0100
    let (mut vm, mut mem) = boot(0x0100, &[0x18, 0x05]);
    mem.write_byte(0x0107, 0x18);
    mem.write_byte(0x0108, 0xF7);
    assert_eq!(vm.execute(&mut mem), Ok(2));
    assert_eq!(vm.registers.pc, 0x0107);
    assert_eq!(vm.execute(&mut mem), Ok(2));
    assert_eq!(vm.registers.pc, 0x0100);
}

#[test]
fn relative_jump_to_itself() {
    let (mut vm, mut mem) = boot(0x0100, &[0x18, 0xFE]);
    assert_eq!(vm.execute(&mut mem), Ok(2));
    assert_eq!(vm.registers.pc, 0x0100);
}

#[test]
fn conditional_relative_jumps() {
    // JR NZ / JR Z / JR NC / JR C
    let cases: [(u8, u8, bool); 8] = [
        (0x20, 0, true),
        (0x20, Z, false),
        (0x28, Z, true),
        (0x28, 0, false),
        (0x30, 0, true),
        (0x30, C, false),
        (0x38, C, true),
        (0x38, 0, false),
    ];
    for (opcode, flags, taken) in cases {
        let (mut vm, mut mem) = boot(0x0100, &[opcode, 0x10]);
        vm.registers.af = flags as u16;
        assert_eq!(vm.execute(&mut mem), Ok(2));
        assert_eq!(vm.registers.pc, if taken { 0x0112 } else { 0x0102 });
        assert_eq!(vm.registers.f(), flags);
    }
}

#[test]
fn call_pushes_the_return_address_and_ret_pops_it() {
    // CALL 0x0200; at 0x0200: RET
    let (mut vm, mut mem) = boot(0x0100, &[0xCD, 0x00, 0x02]);
    mem.write_byte(0x0200, 0xC9);
    vm.registers.sp = 0xFFFE;
    assert_eq!(vm.execute(&mut mem), Ok(3));
    assert_eq!(vm.registers.pc, 0x0200);
    assert_eq!(vm.registers.sp, 0xFFFC);
    assert_eq!(mem.read_byte(0xFFFD), 0x01);
    assert_eq!(mem.read_byte(0xFFFC), 0x03);
    assert_eq!(vm.execute(&mut mem), Ok(1));
    assert_eq!(vm.registers.pc, 0x0103);
    assert_eq!(vm.registers.sp, 0xFFFE);
}

#[test]
fn conditional_calls() {
    let cases: [(u8, u8, bool); 8] = [
        (0xC4, 0, true),
        (0xC4, Z, false),
        (0xCC, Z, true),
        (0xCC, 0, false),
        (0xD4, 0, true),
        (0xD4, C, false),
        (0xDC, C, true),
        (0xDC, 0, false),
    ];
    for (opcode, flags, taken) in cases {
        let (mut vm, mut mem) = boot(0x0100, &[opcode, 0x00, 0x02]);
        vm.registers.af = flags as u16;
        vm.registers.sp = 0xD000;
        assert_eq!(vm.execute(&mut mem), Ok(3));
        if taken {
            assert_eq!(vm.registers.pc, 0x0200);
            assert_eq!(vm.registers.sp, 0xCFFE);
            assert_eq!(mem.read_word(0xCFFE), 0x0103);
        } else {
            assert_eq!(vm.registers.pc, 0x0103);
            assert_eq!(vm.registers.sp, 0xD000);
            assert_eq!(mem.read_word(0xCFFE), 0x0000);
        }
    }
}

#[test]
fn conditional_returns() {
    let cases: [(u8, u8, bool); 8] = [
        (0xC0, 0, true),
        (0xC0, Z, false),
        (0xC8, Z, true),
        (0xC8, 0, false),
        (0xD0, 0, true),
        (0xD0, C, false),
        (0xD8, C, true),
        (0xD8, 0, false),
    ];
    for (opcode, flags, taken) in cases {
        let (mut vm, mut mem) = boot(0x0100, &[opcode]);
        vm.registers.af = flags as u16;
        vm.registers.sp = 0xCFFE;
        mem.write_word(0xCFFE, 0x4567);
        assert_eq!(vm.execute(&mut mem), Ok(1));
        if taken {
            assert_eq!(vm.registers.pc, 0x4567);
            assert_eq!(vm.registers.sp, 0xD000);
        } else {
            assert_eq!(vm.registers.pc, 0x0101);
            assert_eq!(vm.registers.sp, 0xCFFE);
        }
    }
}

#[test]
fn return_from_interrupt_enables_interrupts() {
    let (mut vm, mut mem) = boot(0x0100, &[0xD9]);
    vm.registers.sp = 0xCFFE;
    mem.write_word(0xCFFE, 0x0150);
    assert!(!vm.ime);
    assert_eq!(vm.execute(&mut mem), Ok(1));
    assert_eq!(vm.registers.pc, 0x0150);
    assert_eq!(vm.registers.sp, 0xD000);
    assert!(vm.ime);
}

#[test]
fn restarts_call_fixed_addresses() {
    for tgt in 0..8u8 {
        let (mut vm, mut mem) = boot(0x0100, &[0xC7 | (tgt << 3)]);
        vm.registers.sp = 0xD000;
        assert_eq!(vm.execute(&mut mem), Ok(1));
        assert_eq!(vm.registers.pc, 8 * tgt as u16);
        assert_eq!(vm.registers.sp, 0xCFFE);
        assert_eq!(mem.read_word(0xCFFE), 0x0101);
    }
}

#[test]
fn push_then_pop_restores_every_pair() {
    // PUSH BC; POP BC; PUSH DE; POP DE; PUSH HL; POP HL
    let (mut vm, mut mem) = boot(0x0100, &[0xC5, 0xC1, 0xD5, 0xD1, 0xE5, 0xE1]);
    vm.registers = Registers {
        af: 0x12B0, bc: 0x3456, de: 0x789A,
        hl: 0xBCDE, sp: 0xD000, pc: 0x0100,
    };
    let before = vm.registers;
    for _ in 0..3 {
        assert_eq!(vm.execute(&mut mem), Ok(1));
        assert_eq!(vm.registers.sp, 0xCFFE);
        assert_eq!(vm.execute(&mut mem), Ok(1));
        assert_eq!(vm.registers.sp, 0xD000);
    }
    assert_eq!(vm.registers, Registers { pc: 0x0106, ..before });
}

#[test]
fn push_stores_high_byte_at_the_higher_address() {
    // PUSH BC
    let (mut vm, mut mem) = boot(0x0100, &[0xC5]);
    vm.registers.bc = 0x1234;
    vm.registers.sp = 0xD000;
    assert_eq!(vm.execute(&mut mem), Ok(1));
    assert_eq!(vm.registers.sp, 0xCFFE);
    assert_eq!(mem.read_byte(0xCFFF), 0x12);
    assert_eq!(mem.read_byte(0xCFFE), 0x34);
}

#[test]
fn push_one_pair_pop_another() {
    // PUSH BC; POP DE
    let (mut vm, mut mem) = boot(0x0100, &[0xC5, 0xD1]);
    vm.registers.bc = 0xBEEF;
    vm.registers.sp = 0x0001;
    run(&mut vm, &mut mem, 1);
    assert_eq!(vm.registers.sp, 0xFFFF);
    assert_eq!(mem.read_byte(0x0000), 0xBE);
    assert_eq!(mem.read_byte(0xFFFF), 0xEF);
    run(&mut vm, &mut mem, 1);
    assert_eq!(vm.registers.de, 0xBEEF);
    assert_eq!(vm.registers.sp, 0x0001);
}

#[test]
fn pop_af_clears_the_low_nibble_of_the_flags() {
    // PUSH AF; POP AF with a low nibble in F before the push
    let (mut vm, mut mem) = boot(0x0100, &[0xF5, 0xF1]);
    vm.registers.af = 0x12BF;
    vm.registers.sp = 0xD000;
    run(&mut vm, &mut mem, 1);
    assert_eq!(mem.read_byte(0xCFFF), 0x12);
    assert_eq!(mem.read_byte(0xCFFE), 0xBF);
    run(&mut vm, &mut mem, 1);
    assert_eq!(vm.registers.af, 0x12B0);
    assert_eq!(vm.registers.sp, 0xD000);
}

#[test]
fn pop_af_masks_whatever_lies_on_the_stack() {
    // POP AF
    let (mut vm, mut mem) = boot(0x0100, &[0xF1]);
    vm.registers.sp = 0xC000;
    mem.write_word(0xC000, 0xABFF);
    run(&mut vm, &mut mem, 1);
    assert_eq!(vm.registers.af, 0xABF0);
    assert_eq!(vm.registers.f() & 0x0F, 0);
}

#[test]
fn extended_rotates_and_shifts_on_registers() {
    // RLC B; RRC C; RL D; RR E; SLA H; SRA L; SWAP A; SRL B
    let (mut vm, mut mem) = boot(
        0x0100,
        &[
            0xCB, 0x00, 0xCB, 0x09, 0xCB, 0x12, 0xCB, 0x1B, 0xCB, 0x24, 0xCB, 0x2D, 0xCB, 0x37,
            0xCB, 0x38,
        ],
    );
    vm.registers = Registers { af: 0xF000, bc: 0x8501, de: 0x8001, hl: 0x808A, sp: 0, pc: 0x0100 };
    assert_eq!(vm.execute(&mut mem), Ok(2));
    assert_eq!((vm.registers.b(), vm.registers.f()), (0x0B, C));
    assert_eq!(vm.execute(&mut mem), Ok(2));
    assert_eq!((vm.registers.c(), vm.registers.f()), (0x80, C));
    assert_eq!(vm.execute(&mut mem), Ok(2));
    assert_eq!((vm.registers.d(), vm.registers.f()), (0x01, C));
    assert_eq!(vm.execute(&mut mem), Ok(2));
    assert_eq!((vm.registers.e(), vm.registers.f()), (0x80, C));
    assert_eq!(vm.execute(&mut mem), Ok(2));
    assert_eq!((vm.registers.h(), vm.registers.f()), (0x00, Z | C));
    assert_eq!(vm.execute(&mut mem), Ok(2));
    assert_eq!((vm.registers.l(), vm.registers.f()), (0xC5, 0));
    assert_eq!(vm.execute(&mut mem), Ok(2));
    assert_eq!((vm.registers.a(), vm.registers.f()), (0x0F, 0));
    assert_eq!(vm.execute(&mut mem), Ok(2));
    assert_eq!((vm.registers.b(), vm.registers.f()), (0x05, C));
    assert_eq!(vm.registers.pc, 0x0110);
}

#[test]
fn extended_instructions_on_the_byte_at_hl() {
    // SWAP (HL); SET 7,(HL); RES 0,(HL); BIT 7,(HL); BIT 0,(HL); SRL (HL)
    let (mut vm, mut mem) = boot(
        0x0100,
        &[0xCB, 0x36, 0xCB, 0xFE, 0xCB, 0x86, 0xCB, 0x7E, 0xCB, 0x46, 0xCB, 0x3E],
    );
    vm.registers.hl = 0xC000;
    vm.registers.af = 0x0010;
    mem.write_byte(0xC000, 0x12);
    assert_eq!(vm.execute(&mut mem), Ok(2));
    assert_eq!((mem.read_byte(0xC000), vm.registers.f()), (0x21, 0));
    vm.registers.set_f(C);
    assert_eq!(vm.execute(&mut mem), Ok(2));
    assert_eq!((mem.read_byte(0xC000), vm.registers.f()), (0xA1, C));
    assert_eq!(vm.execute(&mut mem), Ok(2));
    assert_eq!((mem.read_byte(0xC000), vm.registers.f()), (0xA0, C));
    assert_eq!(vm.execute(&mut mem), Ok(2));
    assert_eq!((mem.read_byte(0xC000), vm.registers.f()), (0xA0, H | C));
    assert_eq!(vm.execute(&mut mem), Ok(2));
    assert_eq!((mem.read_byte(0xC000), vm.registers.f()), (0xA0, Z | H | C));
    assert_eq!(vm.execute(&mut mem), Ok(2));
    assert_eq!((mem.read_byte(0xC000), vm.registers.f()), (0x50, 0));
    assert_eq!(vm.registers.a(), 0);
    assert_eq!(vm.registers.hl, 0xC000);
}

#[test]
fn bit_test_leaves_carry_and_operand() {
    // BIT 3,A; BIT 4,A
    let (mut vm, mut mem) = boot(0x0100, &[0xCB, 0x5F, 0xCB, 0x67]);
    vm.registers.af = 0x0800 | (N | C) as u16;
    assert_eq!(vm.execute(&mut mem), Ok(2));
    assert_eq!(vm.registers.af, 0x0800 | (H | C) as u16);
    assert_eq!(vm.execute(&mut mem), Ok(2));
    assert_eq!(vm.registers.af, 0x0800 | (Z | H | C) as u16);
}

#[test]
fn set_and_reset_touch_no_flag() {
    // SET 0,B; RES 7,C
    let (mut vm, mut mem) = boot(0x0100, &[0xCB, 0xC0, 0xCB, 0xB9]);
    vm.registers.af = 0x00F0;
    vm.registers.bc = 0x00FF;
    run(&mut vm, &mut mem, 2);
    assert_eq!(vm.registers.bc, 0x017F);
    assert_eq!(vm.registers.af, 0x00F0);
}

#[test]
fn halt_and_stop_set_the_run_state() {
    let (mut vm, mut mem) = boot(0x0100, &[0x76, 0x10]);
    assert_eq!(vm.execute(&mut mem), Ok(1));
    assert_eq!(vm.state, RunState::Halted);
    assert_eq!(vm.registers.pc, 0x0101);
    assert_eq!(vm.execute(&mut mem), Ok(1));
    assert_eq!(vm.state, RunState::Stopped);
    assert_eq!(vm.registers.pc, 0x0102);
}

#[test]
fn interrupt_switches() {
    // EI; DI; EI
    let (mut vm, mut mem) = boot(0x0100, &[0xFB, 0xF3, 0xFB]);
    assert_eq!(vm.execute(&mut mem), Ok(1));
    assert!(vm.ime);
    assert_eq!(vm.execute(&mut mem), Ok(1));
    assert!(!vm.ime);
    assert_eq!(vm.execute(&mut mem), Ok(1));
    assert!(vm.ime);
    assert_eq!(vm.registers, Registers { pc: 0x0103, ..Registers::default() });
}

#[test]
fn set_flags_adds_flags_and_keeps_the_low_nibble_clear() {
    let mut vm = VM::new();
    vm.set_flags(C);
    assert_eq!(vm.registers.f(), C);
    vm.set_flags(Z);
    assert_eq!(vm.registers.f(), Z | C);
    vm.set_flags(0x0F);
    assert_eq!(vm.registers.f(), Z | C);
    vm.set_flags(N | H);
    assert_eq!(vm.registers.f(), 0xF0);
    assert_eq!(vm.registers.a(), 0);
}

#[test]
fn every_step_keeps_the_low_flag_nibble_clear() {
    for opcode in 0..=255u8 {
        for second in [0x00u8, 0x37, 0x86, 0xFF] {
            let (mut vm, mut mem) = boot(0x0100, &[opcode, second, 0xC0]);
            vm.registers = Registers {
                af: 0x9AF0, bc: 0xC123, de: 0xC456,
                hl: 0xC789, sp: 0xD000, pc: 0x0100,
            };
            mem.write_word(0xD000, 0xFFFF);
            let _ = vm.execute(&mut mem);
            assert_eq!(vm.registers.f() & 0x0F, 0, "opcode {:#04x} {:#04x}", opcode, second);
        }
    }
}

#[test]
fn reported_length_is_the_distance_moved_unless_a_branch_is_taken() {
    for opcode in 0..=255u8 {
        let (mut vm, mut mem) = boot(0x0100, &[opcode, 0x01, 0x02]);
        vm.registers.sp = 0xD000;
        vm.registers.hl = 0xC000;
        let op = fetch(&mem, 0x0100);
        match vm.execute(&mut mem) {
            Ok(n) => {
                assert_eq!(n, op.length());
                let sequential = 0x0100 + n as u16;
                let branches = matches!(
                    op,
                    Op::JrImm8
                        | Op::JrCondImm8 { .. }
                        | Op::JpImm16
                        | Op::JpCondImm16 { .. }
                        | Op::JpHl
                        | Op::CallImm16
                        | Op::CallCondImm16 { .. }
                        | Op::RstTgt3 { .. }
                        | Op::Ret
                        | Op::RetCond { .. }
                        | Op::Reti
                );
                if !branches {
                    assert_eq!(vm.registers.pc, sequential, "opcode {:#04x}", opcode);
                }
            },
            Err(error) => {
                assert_eq!(op, Op::Invalid);
                assert_eq!(error, ExecError::InvalidInstruction { addr: 0x0100, opcode });
            },
        }
    }
}

#[test]
fn loads_and_stores_change_no_flag() {
    for opcode in 0..=255u8 {
        if decode(opcode).family() != Family::Load {
            continue;
        }
        for flags in [0x00u8, 0xF0, 0x50, 0xA0] {
            let (mut vm, mut mem) = boot(0x0100, &[opcode, 0x80, 0xC1]);
            vm.registers = Registers {
                af: 0x5A00 | flags as u16, bc: 0xC123, de: 0xC456,
                hl: 0xC789, sp: 0xD000, pc: 0x0100,
            };
            assert!(vm.execute(&mut mem).is_ok());
            assert_eq!(vm.registers.f(), flags, "opcode {:#04x}", opcode);
        }
    }
}
