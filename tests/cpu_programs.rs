use gameboy::cpu::Cpu;
use gameboy::mbc::new_cartridge;
use gameboy::memory::Bus;

/// A ROM-only image with `program` at 0x0100.
fn machine_with(program: &[u8]) -> (Cpu, Bus) {
    let mut rom = vec![0u8; 0x8000];
    rom[0x0100..0x0100 + program.len()].copy_from_slice(program);
    let bus = Bus::new(new_cartridge(rom));
    (Cpu::new(), bus)
}

fn run(cpu: &mut Cpu, bus: &mut Bus, steps: usize) {
    for _ in 0..steps {
        cpu.step(bus);
    }
}

#[test]
fn add_then_halt_program() {
    let (mut cpu, mut bus) = machine_with(&[0x3E, 0x42, 0x06, 0x17, 0x80, 0x76]);
    run(&mut cpu, &mut bus, 4);
    assert_eq!(cpu.regs.a, 0x59);
    assert_eq!(cpu.regs.f, 0x00);
    assert!(cpu.halted);
    assert_eq!(cpu.regs.pc, 0x0106);
    // Halted: each further step is one idle cycle.
    assert_eq!(cpu.step(&mut bus), 1);
    assert_eq!(cpu.regs.pc, 0x0106);
}

#[test]
fn xor_inc_jump_loop() {
    let (mut cpu, mut bus) = machine_with(&[0xAF, 0x3C, 0x3C, 0xC3, 0x00, 0x01]);
    for _ in 0..3 {
        run(&mut cpu, &mut bus, 4);
        assert_eq!(cpu.regs.a, 2);
        assert_eq!(cpu.regs.pc, 0x0100);
    }
}

#[test]
fn push_hl_to_top_of_stack() {
    let (mut cpu, mut bus) = machine_with(&[0x31, 0xFF, 0xFF, 0x3E, 0x12, 0xE5]);
    assert_eq!(cpu.regs.get_hl(), 0x014D);
    run(&mut cpu, &mut bus, 3);
    // High byte at SP - 1, low byte at SP - 2.
    assert_eq!(bus.read(0xFFFE), 0x01);
    assert_eq!(bus.read(0xFFFD), 0x4D);
    assert_eq!(cpu.regs.sp, 0xFFFD);
    assert_eq!(cpu.regs.a, 0x12);
}

#[test]
fn vblank_interrupt_dispatch() {
    let (mut cpu, mut bus) = machine_with(&[0x00]);
    cpu.ime = true;
    bus.write(0xFFFF, 0x01);
    bus.write(0xFF0F, 0x01);
    let sp_old = cpu.regs.sp;
    let pc_old = cpu.regs.pc;
    assert_eq!(cpu.step(&mut bus), 5);
    assert_eq!(cpu.regs.pc, 0x0040);
    assert_eq!(bus.interrupt_flag & 0x01, 0);
    assert!(!cpu.ime);
    assert_eq!(bus.read(sp_old - 1), (pc_old >> 8) as u8);
    assert_eq!(bus.read(sp_old - 2), pc_old as u8);
    assert_eq!(cpu.regs.sp, sp_old - 2);
}

#[test]
fn interrupt_priority_and_halt_wakeup() {
    let (mut cpu, mut bus) = machine_with(&[0x76]);
    cpu.step(&mut bus);
    assert!(cpu.halted);
    cpu.ime = true;
    bus.interrupt_enable = 0x1F;
    bus.interrupt_flag = 0x14;
    assert_eq!(cpu.step(&mut bus), 5);
    assert!(!cpu.halted);
    assert_eq!(cpu.regs.pc, 0x0050);
    assert_eq!(bus.interrupt_flag, 0x10);
}

#[test]
fn add_a_a_half_carry() {
    let (mut cpu, mut bus) = machine_with(&[0x3E, 0x08, 0x87]);
    run(&mut cpu, &mut bus, 2);
    assert_eq!(cpu.regs.a, 0x10);
    assert_eq!(cpu.regs.f, 0x20);
}

#[test]
fn inc_from_ff_keeps_carry() {
    // F starts as 0xB0: carry set.
    let (mut cpu, mut bus) = machine_with(&[0x3E, 0xFF, 0x3C]);
    run(&mut cpu, &mut bus, 2);
    assert_eq!(cpu.regs.a, 0x00);
    assert_eq!(cpu.regs.f, 0xB0);
    // With carry clear.
    let (mut cpu, mut bus) = machine_with(&[0xAF, 0x3E, 0xFF, 0x3C]);
    run(&mut cpu, &mut bus, 3);
    assert_eq!(cpu.regs.a, 0x00);
    assert_eq!(cpu.regs.f, 0xA0);
}

#[test]
fn daa_after_bcd_add() {
    let (mut cpu, mut bus) = machine_with(&[0x3E, 0x15, 0x87, 0x27]);
    run(&mut cpu, &mut bus, 3);
    assert_eq!(cpu.regs.a, 0x30);
    assert_eq!(cpu.regs.f & 0x10, 0);
    assert_eq!(cpu.regs.f & 0x20, 0);
}

#[test]
fn daa_after_subtraction() {
    // 0x42 - 0x15 = 0x2D, adjusted to BCD 27.
    let (mut cpu, mut bus) = machine_with(&[0x3E, 0x42, 0xD6, 0x15, 0x27]);
    run(&mut cpu, &mut bus, 3);
    assert_eq!(cpu.regs.a, 0x27);
    assert_eq!(cpu.regs.f & 0x40, 0x40);
}

#[test]
fn ld_hl_sp_plus_offset() {
    let (mut cpu, mut bus) = machine_with(&[0x31, 0xF8, 0xFF, 0xF8, 0x02]);
    run(&mut cpu, &mut bus, 2);
    assert_eq!(cpu.regs.get_hl(), 0xFFFA);
    assert_eq!(cpu.regs.f & 0x30, 0x00);
    let (mut cpu, mut bus) = machine_with(&[0x31, 0xFF, 0x00, 0xF8, 0x01]);
    run(&mut cpu, &mut bus, 2);
    assert_eq!(cpu.regs.get_hl(), 0x0100);
    assert_eq!(cpu.regs.f & 0x30, 0x30);
    assert_eq!(cpu.regs.f & 0xC0, 0x00);
}

#[test]
fn ld_hl_sp_negative_offset() {
    let (mut cpu, mut bus) = machine_with(&[0x31, 0x00, 0xD0, 0xF8, 0xFE]);
    run(&mut cpu, &mut bus, 2);
    assert_eq!(cpu.regs.get_hl(), 0xCFFE);
}

#[test]
fn push_pop_round_trip() {
    // LD SP,0xDFF0; LD BC,0x1234; PUSH BC; POP DE
    let (mut cpu, mut bus) = machine_with(&[0x31, 0xF0, 0xDF, 0x01, 0x34, 0x12, 0xC5, 0xD1]);
    run(&mut cpu, &mut bus, 4);
    assert_eq!(cpu.regs.get_de(), 0x1234);
    assert_eq!(cpu.regs.sp, 0xDFF0);
}

#[test]
fn pop_af_masks_flag_nibble() {
    // LD SP,0xDFF0; LD BC,0xABFF; PUSH BC; POP AF
    let (mut cpu, mut bus) = machine_with(&[0x31, 0xF0, 0xDF, 0x01, 0xFF, 0xAB, 0xC5, 0xF1]);
    run(&mut cpu, &mut bus, 4);
    assert_eq!(cpu.regs.a, 0xAB);
    assert_eq!(cpu.regs.f, 0xF0);
    assert_eq!(cpu.regs.f & 0x0F, 0);
    assert_eq!(cpu.regs.get_af(), 0xABF0);
}

#[test]
fn ei_then_di_and_di_then_ei() {
    let (mut cpu, mut bus) = machine_with(&[0xFB, 0xF3]);
    run(&mut cpu, &mut bus, 2);
    assert!(!cpu.ime);
    let (mut cpu, mut bus) = machine_with(&[0xF3, 0xFB]);
    run(&mut cpu, &mut bus, 2);
    assert!(cpu.ime);
}

#[test]
fn flag_nibble_stays_clear() {
    // A mix of ALU, rotate, CB and stack instructions.
    let program = [
        0x3E, 0x8F, 0xC6, 0x71, 0xCE, 0x0F, 0xD6, 0x33, 0xDE, 0x01, 0x07, 0x1F, 0xCB, 0x37, 0xCB, 0x7F, 0x27,
        0x2F, 0x37, 0x3F, 0x09, 0xE8, 0x05,
    ];
    let (mut cpu, mut bus) = machine_with(&program);
    for _ in 0..20 {
        cpu.step(&mut bus);
        assert_eq!(cpu.regs.f & 0x0F, 0);
    }
}

#[test]
fn call_and_return() {
    // CALL 0x0110; at 0x0110: LD A,0x77; RET
    let mut program = vec![0u8; 0x20];
    program[0] = 0xCD;
    program[1] = 0x10;
    program[2] = 0x01;
    program[0x10] = 0x3E;
    program[0x11] = 0x77;
    program[0x12] = 0xC9;
    let (mut cpu, mut bus) = machine_with(&program);
    assert_eq!(cpu.step(&mut bus), 6);
    assert_eq!(cpu.regs.pc, 0x0110);
    run(&mut cpu, &mut bus, 1);
    assert_eq!(cpu.step(&mut bus), 4);
    assert_eq!(cpu.regs.pc, 0x0103);
    assert_eq!(cpu.regs.a, 0x77);
    assert_eq!(cpu.regs.sp, 0xFFFE);
}

#[test]
fn relative_jumps() {
    // JR +2 over two bytes; then JR NZ -4 is not taken after XOR A (Z set).
    let (mut cpu, mut bus) = machine_with(&[0x18, 0x02, 0x00, 0x00, 0xAF, 0x20, 0xFC]);
    assert_eq!(cpu.step(&mut bus), 3);
    assert_eq!(cpu.regs.pc, 0x0104);
    run(&mut cpu, &mut bus, 1);
    assert_eq!(cpu.step(&mut bus), 2);
    assert_eq!(cpu.regs.pc, 0x0107);
}

#[test]
fn cb_bit_set_res_swap() {
    // LD B,0x0F; SWAP B; SET 0,B; RES 7,B; BIT 7,B
    let (mut cpu, mut bus) = machine_with(&[0x06, 0x0F, 0xCB, 0x30, 0xCB, 0xC0, 0xCB, 0xB8, 0xCB, 0x78]);
    run(&mut cpu, &mut bus, 2);
    assert_eq!(cpu.regs.b, 0xF0);
    run(&mut cpu, &mut bus, 2);
    assert_eq!(cpu.regs.b, 0x71);
    assert_eq!(cpu.step(&mut bus), 2);
    assert_eq!(cpu.regs.f & 0x80, 0x80);
    assert_eq!(cpu.regs.f & 0x20, 0x20);
}

#[test]
fn hl_indirect_costs_more() {
    // LD HL,0xC000; LD (HL),0x5A; LD A,(HL); LD B,A
    let (mut cpu, mut bus) = machine_with(&[0x21, 0x00, 0xC0, 0x36, 0x5A, 0x7E, 0x47]);
    assert_eq!(cpu.step(&mut bus), 3);
    assert_eq!(cpu.step(&mut bus), 3);
    assert_eq!(cpu.step(&mut bus), 2);
    assert_eq!(cpu.step(&mut bus), 1);
    assert_eq!(cpu.regs.b, 0x5A);
}

#[test]
fn undefined_opcode_is_nop() {
    let (mut cpu, mut bus) = machine_with(&[0xD3, 0xFD]);
    assert_eq!(cpu.step(&mut bus), 1);
    assert_eq!(cpu.step(&mut bus), 1);
    assert_eq!(cpu.regs.pc, 0x0102);
}

#[test]
fn registers_reset_state() {
    let cpu = Cpu::new();
    assert_eq!(cpu.regs.get_af(), 0x01B0);
    assert_eq!(cpu.regs.get_bc(), 0x0013);
    assert_eq!(cpu.regs.get_de(), 0x00D8);
    assert_eq!(cpu.regs.get_hl(), 0x014D);
    assert_eq!(cpu.regs.sp, 0xFFFE);
    assert_eq!(cpu.regs.pc, 0x0100);
    assert!(!cpu.ime && !cpu.halted);
}

#[test]
fn register_pairs_split_and_join() {
    let mut cpu = Cpu::new();
    cpu.regs.set_bc(0xBEEF);
    assert_eq!((cpu.regs.b, cpu.regs.c), (0xBE, 0xEF));
    cpu.regs.set_de(0x1234);
    assert_eq!(cpu.regs.get_de(), 0x1234);
    cpu.regs.set_hl(0xFFFF);
    assert_eq!(cpu.regs.get_hl(), 0xFFFF);
    cpu.regs.set_af(0x12FF);
    assert_eq!(cpu.regs.get_af(), 0x12F0);
}
