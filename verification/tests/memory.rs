use rusty_6502::debugger::Debugger;
use rusty_6502::mem::MEM;

#[test]
fn new_memory_is_zeroed() {
    let mem = MEM::new();
    assert_eq!(mem.read(0), 0);
    assert_eq!(mem.read(600), 0);
    assert_eq!(mem.read(65535), 0);
}

#[test]
fn initalize_clears_every_byte() {
    let mut mem = MEM::new();
    mem.write(0, 1);
    mem.write(42, 2);
    mem.write(65535, 3);
    mem.initalize();
    assert_eq!(mem.read(0), 0);
    assert_eq!(mem.read(42), 0);
    assert_eq!(mem.read(65535), 0);
}

#[test]
fn read_returns_written_byte() {
    let mut mem = MEM::new();
    mem.write(0x0202, 0xAB);
    assert_eq!(mem.read(0x0202), 0xAB);
    assert_eq!(mem.read(0x0201), 0x00);
    assert_eq!(mem.read(0x0203), 0x00);
}

#[test]
fn memory_write_word_is_little_endian() {
    let mut mem = MEM::new();
    let mut cycles: u32 = 2;
    mem.write_word(&mut cycles, 0x1234, 100);
    assert_eq!(mem.read(100), 0x34);
    assert_eq!(mem.read(101), 0x12);
    assert_eq!(cycles, 0);
}

#[test]
fn hex_dump_formats_bytes() {
    let mut mem = MEM::new();
    mem.write(600, 0xA2);
    mem.write(601, 0x01);
    mem.write(602, 0x0F);
    assert_eq!(mem.hex_dump(600, 603), "A2 01 0F ");
    assert_eq!(mem.hex_dump(600, 600), "");
    assert_eq!(mem.hex_dump(0, 2), "00 00 ");
}

#[test]
fn debugger_starts_without_breakpoints() {
    let debugger = Debugger::new(|_: u8| {});
    assert!(debugger.breakpoints.is_empty());
    assert_eq!(debugger.pc, 0);
    assert!(!debugger.halt);
    assert!(!debugger.wait_next_instruction);
}
