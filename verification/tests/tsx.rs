use rusty_6502::cpu::CPU;
use rusty_6502::mem::MEM;

#[test]
fn tsx_implied() {
    let mut mem = MEM::new();
    let mut cpu = CPU::new(|_| {});
    cpu.reset(600, &mut mem);
    mem.write(600, 0xA9);
    mem.write(601, 0x01);
    mem.write(602, 0xBA);

    cpu.execute_continuous(&mut mem).unwrap();
    assert_eq!(cpu.A, 0x01);
    assert_eq!(cpu.X, 0xFF);
    assert_eq!(cpu.Y, 0x00);
    assert_eq!(mem.read(600), 0xA9);
    assert_eq!(mem.read(601), 0x01);
    assert_eq!(mem.read(602), 0xBA);
}
