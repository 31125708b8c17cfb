use rusty_6502::cpu::CPU;
use rusty_6502::mem::MEM;

#[test]
fn sec_then_clc_clears_carry() {
    let mut mem = MEM::new();
    let mut cpu = CPU::new(|_| {});
    cpu.reset(600, &mut mem);
    mem.write(600, 0x38);
    mem.write(601, 0x18);
    cpu.execute_continuous(&mut mem).unwrap();
    assert_eq!(cpu.status_flags.C, 0);
}

#[test]
fn sed_then_cld_clears_decimal() {
    let mut mem = MEM::new();
    let mut cpu = CPU::new(|_| {});
    cpu.reset(600, &mut mem);
    mem.write(600, 0xF8);
    mem.write(601, 0xD8);
    cpu.execute_continuous(&mut mem).unwrap();
    assert_eq!(cpu.status_flags.D, 0);
}

#[test]
fn sei_then_cli_clears_interrupt_disable() {
    let mut mem = MEM::new();
    let mut cpu = CPU::new(|_| {});
    cpu.reset(600, &mut mem);
    mem.write(600, 0x78);
    mem.write(601, 0x58);
    // the halting BRK sets I again, so stop before it with a budget
    let mut budget: u32 = 4;
    cpu.execute_sized(&mut budget, &mut mem).unwrap();
    assert_eq!(cpu.status_flags.I, 0);
}

#[test]
fn clv_leaves_overflow_clear() {
    let mut mem = MEM::new();
    let mut cpu = CPU::new(|_| {});
    cpu.reset(600, &mut mem);
    mem.write(600, 0xB8);
    cpu.execute_continuous(&mut mem).unwrap();
    assert_eq!(cpu.status_flags.V, 0);
}

#[test]
fn tax_copies_a_into_x() {
    let mut mem = MEM::new();
    let mut cpu = CPU::new(|_| {});
    cpu.reset(600, &mut mem);
    mem.write(600, 0xA9);
    mem.write(601, 0x05);
    mem.write(602, 0xAA);
    cpu.execute_continuous(&mut mem).unwrap();
    assert_eq!(cpu.X, 0x05);
    assert_eq!(cpu.status_flags.Z, 0);
    assert_eq!(cpu.status_flags.N, 0);
}

#[test]
fn tay_copies_a_into_y() {
    let mut mem = MEM::new();
    let mut cpu = CPU::new(|_| {});
    cpu.reset(600, &mut mem);
    mem.write(600, 0xA9);
    mem.write(601, 0x80);
    mem.write(602, 0xA8);
    cpu.execute_continuous(&mut mem).unwrap();
    assert_eq!(cpu.Y, 0x80);
    assert_eq!(cpu.status_flags.N, 1);
}

#[test]
fn txa_copies_x_into_a() {
    let mut mem = MEM::new();
    let mut cpu = CPU::new(|_| {});
    cpu.reset(600, &mut mem);
    mem.write(600, 0xA2);
    mem.write(601, 0x07);
    mem.write(602, 0x8A);
    cpu.execute_continuous(&mut mem).unwrap();
    assert_eq!(cpu.A, 0x07);
}

#[test]
fn iny_increments_y() {
    let mut mem = MEM::new();
    let mut cpu = CPU::new(|_| {});
    cpu.reset(600, &mut mem);
    mem.write(600, 0xA0);
    mem.write(601, 0x41);
    mem.write(602, 0xC8);
    cpu.execute_continuous(&mut mem).unwrap();
    assert_eq!(cpu.Y, 0x42);
}

#[test]
fn dex_decrements_x() {
    let mut mem = MEM::new();
    let mut cpu = CPU::new(|_| {});
    cpu.reset(600, &mut mem);
    mem.write(600, 0xA2);
    mem.write(601, 0x01);
    mem.write(602, 0xCA);
    cpu.execute_continuous(&mut mem).unwrap();
    assert_eq!(cpu.X, 0x00);
    assert_eq!(cpu.status_flags.Z, 1);
}
