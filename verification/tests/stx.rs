use rusty_6502::cpu::CPU;
use rusty_6502::mem::MEM;

#[test]
fn stx_sta_zero_page() {
    let mut mem = MEM::new();
    let mut cpu = CPU::new(|_| {});
    cpu.reset(600, &mut mem);
    mem.write(600, 0xA2);
    mem.write(601, 0x01);
    mem.write(602, 0x86);
    mem.write(603, 0x00);

    cpu.execute_continuous(&mut mem).unwrap();
    assert_eq!(cpu.A, 0x00);
    assert_eq!(cpu.X, 0x01);
    assert_eq!(cpu.Y, 0x00);
    assert_eq!(mem.read(600), 0xA2);
    assert_eq!(mem.read(601), 0x01);
    assert_eq!(mem.read(602), 0x86);
    assert_eq!(mem.read(603), 0x00);
    assert_eq!(mem.read(0), 0x01);
}

#[test]
fn stx_zero_page_y() {
    let mut mem = MEM::new();
    let mut cpu = CPU::new(|_| {});
    cpu.reset(600, &mut mem);
    mem.write(600, 0xA2);
    mem.write(601, 0x01);
    mem.write(602, 0xA0);
    mem.write(603, 0x01);
    mem.write(604, 0x96);
    mem.write(605, 0x00);

    cpu.execute_continuous(&mut mem).unwrap();
    assert_eq!(cpu.A, 0x00);
    assert_eq!(cpu.X, 0x01);
    assert_eq!(cpu.Y, 0x01);
    assert_eq!(mem.read(600), 0xA2);
    assert_eq!(mem.read(601), 0x01);
    assert_eq!(mem.read(602), 0xA0);
    assert_eq!(mem.read(603), 0x01);
    assert_eq!(mem.read(604), 0x96);
    assert_eq!(mem.read(605), 0x00);
    assert_eq!(mem.read(1), 0x01);
}

#[test]
fn stx_absolute() {
    let mut mem = MEM::new();
    let mut cpu = CPU::new(|_| {});
    cpu.reset(600, &mut mem);
    mem.write(600, 0xA2);
    mem.write(601, 0x01);
    mem.write(602, 0x8E);
    mem.write(603, 0x01);
    mem.write(604, 0x00);

    cpu.execute_continuous(&mut mem).unwrap();
    assert_eq!(cpu.A, 0x00);
    assert_eq!(cpu.X, 0x01);
    assert_eq!(cpu.Y, 0x00);
    assert_eq!(mem.read(600), 0xA2);
    assert_eq!(mem.read(601), 0x01);
    assert_eq!(mem.read(602), 0x8E);
    assert_eq!(mem.read(603), 0x01);
    assert_eq!(mem.read(604), 0x00);
    assert_eq!(mem.read(1), 0x01);
}
