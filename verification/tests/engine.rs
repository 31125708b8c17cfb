use rusty_6502::cpu::{Step, CPU};
use rusty_6502::debugger::MessageType;
use rusty_6502::mem::MEM;
use rusty_6502::opcodes::EmuError;
use std::cell::Cell;

#[test]
fn zero_page_x_wraps_within_zero_page() {
    let mut mem = MEM::new();
    let mut cpu = CPU::new(|_| {});
    cpu.reset(600, &mut mem);
    // LDX #$02, then LDA $FF,X: 0xFF + 0x02 wraps to address 0x01
    mem.write(600, 0xA2);
    mem.write(601, 0x02);
    mem.write(602, 0xB5);
    mem.write(603, 0xFF);
    mem.write(0x01, 0x77);
    mem.write(0x101, 0x55); // must not be read: no carry into the next page

    cpu.execute_continuous(&mut mem).unwrap();
    assert_eq!(cpu.A, 0x77);
}

#[test]
fn zero_page_y_wraps_within_zero_page() {
    let mut mem = MEM::new();
    let mut cpu = CPU::new(|_| {});
    cpu.reset(600, &mut mem);
    // LDY #$02, then LDX $FF,Y: 0xFF + 0x02 wraps to address 0x01
    mem.write(600, 0xA0);
    mem.write(601, 0x02);
    mem.write(602, 0xB6);
    mem.write(603, 0xFF);
    mem.write(0x01, 0x66);
    mem.write(0x101, 0x44);

    cpu.execute_continuous(&mut mem).unwrap();
    assert_eq!(cpu.X, 0x66);
}

#[test]
fn load_zero_sets_z_clears_n() {
    let mut mem = MEM::new();
    let mut cpu = CPU::new(|_| {});
    cpu.reset(600, &mut mem);
    mem.write(600, 0xA9);
    mem.write(601, 0x00);

    cpu.execute_continuous(&mut mem).unwrap();
    assert_eq!(cpu.A, 0x00);
    assert_eq!(cpu.status_flags.Z, 1);
    assert_eq!(cpu.status_flags.N, 0);
}

#[test]
fn load_bit7_sets_n_clears_z() {
    let mut mem = MEM::new();
    let mut cpu = CPU::new(|_| {});
    cpu.reset(600, &mut mem);
    mem.write(600, 0xA2);
    mem.write(601, 0x80);

    cpu.execute_continuous(&mut mem).unwrap();
    assert_eq!(cpu.X, 0x80);
    assert_eq!(cpu.status_flags.Z, 0);
    assert_eq!(cpu.status_flags.N, 1);
}

#[test]
fn load_y_flags_both_values() {
    let mut mem = MEM::new();
    let mut cpu = CPU::new(|_| {});
    cpu.reset(600, &mut mem);
    mem.write(600, 0xA0);
    mem.write(601, 0x00);
    cpu.execute_continuous(&mut mem).unwrap();
    assert_eq!(cpu.status_flags.Z, 1);
    assert_eq!(cpu.status_flags.N, 0);

    cpu.reset(600, &mut mem);
    mem.write(600, 0xA0);
    mem.write(601, 0x80);
    cpu.execute_continuous(&mut mem).unwrap();
    assert_eq!(cpu.Y, 0x80);
    assert_eq!(cpu.status_flags.Z, 0);
    assert_eq!(cpu.status_flags.N, 1);
}

#[test]
fn increment_x_wraps_to_zero() {
    let mut mem = MEM::new();
    let mut cpu = CPU::new(|_| {});
    cpu.reset(600, &mut mem);
    // LDX #$FF, INX
    mem.write(600, 0xA2);
    mem.write(601, 0xFF);
    mem.write(602, 0xE8);

    cpu.execute_continuous(&mut mem).unwrap();
    assert_eq!(cpu.X, 0x00);
    assert_eq!(cpu.status_flags.Z, 1);
    assert_eq!(cpu.status_flags.N, 0);
}

#[test]
fn decrement_y_wraps_to_ff() {
    let mut mem = MEM::new();
    let mut cpu = CPU::new(|_| {});
    cpu.reset(600, &mut mem);
    // DEY with Y still zero from reset
    mem.write(600, 0x88);

    cpu.execute_continuous(&mut mem).unwrap();
    assert_eq!(cpu.Y, 0xFF);
    assert_eq!(cpu.status_flags.Z, 0);
    assert_eq!(cpu.status_flags.N, 1);
}

#[test]
fn reset_wipes_memory() {
    let mut mem = MEM::new();
    let mut cpu = CPU::new(|_| {});
    mem.write(0, 0xAA);
    mem.write(600, 0xBB);
    mem.write(0x1234, 0xCC);
    mem.write(65535, 0xDD);

    cpu.reset(600, &mut mem);
    assert_eq!(mem.read(0), 0x00);
    assert_eq!(mem.read(600), 0x00);
    assert_eq!(mem.read(0x1234), 0x00);
    assert_eq!(mem.read(65535), 0x00);
    assert_eq!(cpu.PC, 600);
    assert_eq!(cpu.SP, 0xFF);
    assert_eq!(cpu.A, 0x00);
}

#[test]
fn brk_halts_with_vector_transfer_in_seven_cycles() {
    let mut mem = MEM::new();
    let mut cpu = CPU::new(|_| {});
    cpu.reset(600, &mut mem);
    // only opcode 0x00 at the start address, vector bytes still zero

    let (cycles, last_pc) = cpu.execute_continuous(&mut mem).unwrap();
    assert_eq!(cycles, 7);
    assert_eq!(last_pc, 600);
    assert_eq!(cpu.PC, 0x0000);
    assert_eq!(cpu.status_flags.I, 1);
    assert_eq!(cpu.status_flags.B, 1);
    assert_eq!(cpu.SP, 0xFC);
    // return address 600 + 3 = 0x025B pushed high byte first, then the
    // packed status byte: only the interrupt-disable flag is set
    assert_eq!(mem.read(0x01FF), 0x02);
    assert_eq!(mem.read(0x01FE), 0x5B);
    assert_eq!(mem.read(0x01FD), 0x20);
}

#[test]
fn brk_follows_nonzero_vector() {
    let mut mem = MEM::new();
    let mut cpu = CPU::new(|_| {});
    cpu.reset(600, &mut mem);
    mem.write(0xFFFE, 0x34);
    mem.write(0xFFFF, 0x12);

    let (cycles, _) = cpu.execute_continuous(&mut mem).unwrap();
    assert_eq!(cycles, 7);
    assert_eq!(cpu.PC, 0x1234);
}

#[test]
fn unknown_opcode_is_reported() {
    let mut mem = MEM::new();
    let mut cpu = CPU::new(|_| {});
    cpu.reset(600, &mut mem);
    mem.write(600, 0x02);

    let r = cpu.execute_continuous(&mut mem);
    assert_eq!(r, Err(EmuError::UnknownOpcode(0x02)));
    assert_eq!(cpu.PC, 601);
}

#[test]
fn unsupported_addressing_mode_is_reported() {
    let mut mem = MEM::new();
    let mut cpu = CPU::new(|_| {});
    cpu.reset(600, &mut mem);
    // NOP decodes, but no semantic handler is wired for it
    mem.write(600, 0xEA);

    let r = cpu.execute_continuous(&mut mem);
    assert_eq!(r, Err(EmuError::UnsupportedAddressingMode(0xEA)));
    assert_eq!(cpu.PC, 601);
}

#[test]
fn execute_sized_stops_before_exceeding_budget() {
    let mut mem = MEM::new();
    let mut cpu = CPU::new(|_| {});
    cpu.reset(600, &mut mem);
    // LDX #$01 (2 cycles), LDY #$03 (2 cycles), then BRK
    mem.write(600, 0xA2);
    mem.write(601, 0x01);
    mem.write(602, 0xA0);
    mem.write(603, 0x03);

    let mut budget: u32 = 3;
    let end = cpu.execute_sized(&mut budget, &mut mem).unwrap();
    assert_eq!(end, 602);
    assert_eq!(budget, 1);
    assert_eq!(cpu.X, 0x01);
    assert_eq!(cpu.Y, 0x00);
}

#[test]
fn execute_sized_runs_to_halt_within_budget() {
    let mut mem = MEM::new();
    let mut cpu = CPU::new(|_| {});
    cpu.reset(600, &mut mem);
    mem.write(600, 0xA2);
    mem.write(601, 0x01);

    let mut budget: u32 = 100;
    let end = cpu.execute_sized(&mut budget, &mut mem).unwrap();
    assert_eq!(cpu.X, 0x01);
    assert_eq!(cpu.PC, 0x0000);
    assert_eq!(end, 0x0000);
    assert_eq!(budget, 100 - 2 - 7);
}

#[test]
fn supervised_run_notifies_observer_per_step() {
    let steps = Cell::new(0u32);
    let cycle_sum = Cell::new(0u32);
    let mut mem = MEM::new();
    let mut cpu = CPU::new(|message| match message {
        MessageType::LineExecuted(_, consumed) => {
            steps.set(steps.get() + 1);
            cycle_sum.set(cycle_sum.get() + consumed);
        }
        _ => {}
    });
    cpu.step = Step::Supervised;
    cpu.reset(600, &mut mem);
    mem.write(600, 0xA9);
    mem.write(601, 0x01);

    let (total, _) = cpu.execute_continuous(&mut mem).unwrap();
    assert_eq!(steps.get(), 2); // LDA and the halting BRK
    assert_eq!(cycle_sum.get() as usize, total);
    assert_eq!(total, 9);
}

#[test]
fn unsupervised_run_stays_silent() {
    let calls = Cell::new(0u32);
    let mut mem = MEM::new();
    let mut cpu = CPU::new(|_| calls.set(calls.get() + 1));
    cpu.reset(600, &mut mem);
    mem.write(600, 0xA9);
    mem.write(601, 0x01);

    cpu.execute_continuous(&mut mem).unwrap();
    assert_eq!(calls.get(), 0);
}

#[test]
fn get_ps_packs_flags() {
    let mut mem = MEM::new();
    let mut cpu = CPU::new(|_| {});
    cpu.reset(600, &mut mem);
    assert_eq!(cpu.status_flags.get_ps(), 0x00);

    cpu.status_flags.N = 1;
    cpu.status_flags.Z = 1;
    cpu.status_flags.C = 1;
    assert_eq!(cpu.status_flags.get_ps(), 0x80 | 0x04 | 0x02);

    cpu.status_flags.N = 0;
    cpu.status_flags.V = 1;
    cpu.status_flags.I = 1;
    cpu.status_flags.B = 1;
    cpu.status_flags.D = 1;
    assert_eq!(cpu.status_flags.get_ps(), 0x40 | 0x20 | 0x10 | 0x08 | 0x04 | 0x02);
}

#[test]
fn fetch_and_read_word_are_little_endian() {
    let mut mem = MEM::new();
    let mut cpu = CPU::new(|_| {});
    cpu.reset(600, &mut mem);
    mem.write(600, 0x5B);
    mem.write(601, 0x02);
    let mut cycles: u32 = 4;
    let word = cpu.fetch_word(&mut cycles, &mut mem);
    assert_eq!(word, 0x025B);
    assert_eq!(cpu.PC, 602);
    let word2 = cpu.read_word(&mut cycles, &mut mem, 600);
    assert_eq!(word2, 0x025B);
    assert_eq!(cycles, 0);
}

#[test]
fn stack_pushes_wrap_and_place_bytes() {
    let mut mem = MEM::new();
    let mut cpu = CPU::new(|_| {});
    cpu.reset(600, &mut mem);
    let mut cycles: u32 = 3;
    cpu.push_word_to_stack(&mut cycles, &mut mem, 0xABCD);
    assert_eq!(mem.read(0x01FF), 0xAB);
    assert_eq!(mem.read(0x01FE), 0xCD);
    assert_eq!(cpu.SP, 0xFD);
    cpu.SP = 0x00;
    cpu.push_byte_to_stack(&mut cycles, &mut mem, 0x42);
    assert_eq!(mem.read(0x0100), 0x42);
    assert_eq!(cpu.SP, 0xFF);
    assert_eq!(cycles, 0);
}

#[test]
fn pc_fetch_wraps_at_top_of_memory() {
    let mut mem = MEM::new();
    let mut cpu = CPU::new(|_| {});
    cpu.reset(0xFFFF, &mut mem);
    mem.write(0xFFFF, 0x37);
    let mut cycles: u32 = 1;
    let byte = cpu.fetch_byte(&mut cycles, &mut mem);
    assert_eq!(byte, 0x37);
    assert_eq!(cpu.PC, 0x0000);
}

#[test]
fn byte_helpers_charge_cycles() {
    let mut mem = MEM::new();
    let mut cpu = CPU::new(|_| {});
    cpu.reset(600, &mut mem);
    let mut cycles: u32 = 4;
    cpu.write_byte(&mut cycles, &mut mem, 0x0300, 0x9C);
    assert_eq!(cycles, 3);
    let byte = cpu.read_byte(&mut cycles, &mut mem, 0x0300);
    assert_eq!(byte, 0x9C);
    assert_eq!(cycles, 2);
    cpu.write_word(&mut cycles, &mut mem, 0x40, 0xBEEF);
    assert_eq!(mem.read(0x40), 0xEF);
    assert_eq!(mem.read(0x41), 0xBE);
    assert_eq!(cycles, 0);
}
