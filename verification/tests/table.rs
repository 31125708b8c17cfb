use rusty_6502::opcodes::{AddrCode, AddrMode, EmuError, Instructions};

#[test]
fn resolve_brk_entry() {
    let instruction = Instructions::resolve(0x00).unwrap();
    assert_eq!(
        instruction,
        Instructions::BRK(AddrMode::Implied(AddrCode {
            cycles: 7,
            opcode: 0x00,
        }))
    );
}

#[test]
fn resolve_lda_immediate_entry() {
    let instruction = Instructions::resolve(0xA9).unwrap();
    assert_eq!(
        instruction,
        Instructions::LDA(AddrMode::Immediate(AddrCode {
            cycles: 2,
            opcode: 0xA9,
        }))
    );
}

#[test]
fn resolve_sample_entries() {
    assert_eq!(
        Instructions::resolve(0xDE).unwrap(),
        Instructions::DEC(AddrMode::AbsoluteX(AddrCode {
            cycles: 7,
            opcode: 0xDE,
        }))
    );
    assert_eq!(
        Instructions::resolve(0x8C).unwrap(),
        Instructions::STY(AddrMode::Absolute(AddrCode {
            cycles: 4,
            opcode: 0x8C,
        }))
    );
    assert_eq!(
        Instructions::resolve(0xB6).unwrap(),
        Instructions::LDX(AddrMode::ZeroPageY(AddrCode {
            cycles: 4,
            opcode: 0xB6,
        }))
    );
    assert_eq!(
        Instructions::resolve(0x6C).unwrap(),
        Instructions::JMP(AddrMode::Indirect(AddrCode {
            cycles: 5,
            opcode: 0x6C,
        }))
    );
    assert_eq!(
        Instructions::resolve(0x9A).unwrap(),
        Instructions::TXS(AddrMode::Implied(AddrCode {
            cycles: 2,
            opcode: 0x9A,
        }))
    );
}

#[test]
fn resolve_rejects_unassigned_bytes() {
    assert_eq!(Instructions::resolve(0x02), Err(EmuError::UnknownOpcode(0x02)));
    assert_eq!(Instructions::resolve(0xFF), Err(EmuError::UnknownOpcode(0xFF)));
    assert_eq!(Instructions::resolve(0x80), Err(EmuError::UnknownOpcode(0x80)));
}

#[test]
fn resolve_legal_set_count() {
    let mut legal: u32 = 0;
    for opcode in 0..=255u8 {
        if Instructions::resolve(opcode).is_ok() {
            legal += 1;
        }
    }
    assert_eq!(legal, 151);
}

#[test]
fn mode_accessor_returns_carried_mode() {
    let instruction = Instructions::resolve(0xA2).unwrap();
    assert_eq!(
        instruction.mode(),
        AddrMode::Immediate(AddrCode {
            cycles: 2,
            opcode: 0xA2,
        })
    );
    assert_eq!(instruction.mode().code().cycles, 2);
}

#[test]
fn as_text_renders_mnemonic_and_mode() {
    let instruction = Instructions::resolve(0xA9).unwrap();
    assert_eq!(instruction.as_text(), "LDA : Immediate");
    assert_eq!(instruction.mode().as_text(), "Immediate");
    let brk = Instructions::resolve(0x00).unwrap();
    assert_eq!(brk.as_text(), "BRK : Implied");
    assert_eq!(
        Instructions::resolve(0xDE).unwrap().as_text(),
        "DEC : AbsoluteX"
    );
}
