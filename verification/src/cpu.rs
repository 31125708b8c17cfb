use vstd::prelude::*;

use crate::debugger::{Debugger, MessageType};
use crate::mem::{MAX_MEM, MEM};
use crate::opcodes::{lemma_resolve_cycles, spec_resolve, AddrMode, EmuError, Instructions};

verus! {

/// 8-bit addition that wraps past 255.
pub open spec fn wrap_add8(a: u8, b: u8) -> u8 {
    if a + b > 255 {
        (a + b - 256) as u8
    } else {
        (a + b) as u8
    }
}

/// 8-bit subtraction that wraps below 0.
pub open spec fn wrap_sub8(a: u8, b: u8) -> u8 {
    if a - b < 0 {
        (a - b + 256) as u8
    } else {
        (a - b) as u8
    }
}

/// 16-bit addition that wraps past 65535.
pub open spec fn wrap_add16(a: u16, b: u16) -> u16 {
    if a + b > 65535 {
        (a + b - 65536) as u16
    } else {
        (a + b) as u16
    }
}

/// The little-endian word at `a`: the low byte at `a`, the high byte at
/// the wrapped successor of `a`.
pub open spec fn spec_word(m: Seq<u8>, a: u16) -> u16 {
    (m[a as int] + 256 * m[wrap_add16(a, 1) as int]) as u16
}

/// The address within the fixed stack page that stack pointer `sp`
/// points at.
pub open spec fn stack_addr(sp: u8) -> int {
    0x100 + sp as int
}

/// The discrete 6502 status flags; each holds exactly 0 or 1.
#[derive(Debug)]
pub struct StatusFlags {
    /// Negative flag.
    pub N: u8,
    /// Overflow flag.
    pub V: u8,
    /// Unused flag, constant 1.
    pub U: u8,
    /// Interrupt-disable flag.
    pub I: u8,
    /// Break flag.
    pub B: u8,
    /// Decimal-mode flag.
    pub D: u8,
    /// Zero flag.
    pub Z: u8,
    /// Carry flag.
    pub C: u8,
}

impl StatusFlags {
    /// Every flag holds exactly 0 or 1.
    pub open spec fn wf(&self) -> bool {
        &&& self.N <= 1
        &&& self.V <= 1
        &&& self.U <= 1
        &&& self.I <= 1
        &&& self.B <= 1
        &&& self.D <= 1
        &&& self.Z <= 1
        &&& self.C <= 1
    }

    /// Pack the flags into one byte, in bit order N V I B D Z C from
    /// bit 7 down to bit 1; the unused flag is omitted and bit 0 stays
    /// clear.
    pub fn get_ps(&self) -> (r: u8)
        requires
            self.wf(),
        ensures
            r == self.N * 128 + self.V * 64 + self.I * 32 + self.B * 16 + self.D * 8 + self.Z * 4
                + self.C * 2,
    {
        self.N * 128 + self.V * 64 + self.I * 32 + self.B * 16 + self.D * 8 + self.Z * 4 + self.C
            * 2
    }
}

/// Whether the engine notifies the debug observer after each step.
#[derive(Debug, PartialEq, Eq, Structural)]
pub enum Step {
    /// The observer is never called.
    Unsupervised,
    /// The observer is called once per executed instruction.
    Supervised,
}

/// A pure record of the engine-visible CPU state, for specifications.
pub struct Regs {
    /// Program counter.
    pub pc: u16,
    /// Stack pointer.
    pub sp: u8,
    /// Status register byte.
    pub sr: u8,
    /// Accumulator.
    pub a: u8,
    /// X register.
    pub x: u8,
    /// Y register.
    pub y: u8,
    /// Negative flag.
    pub n: u8,
    /// Overflow flag.
    pub v: u8,
    /// Unused flag.
    pub u: u8,
    /// Interrupt-disable flag.
    pub i: u8,
    /// Break flag.
    pub b: u8,
    /// Decimal-mode flag.
    pub d: u8,
    /// Zero flag.
    pub z: u8,
    /// Carry flag.
    pub c: u8,
}

/// 1 when `v` is zero, else 0: the zero flag a value produces.
pub open spec fn z_of(v: u8) -> u8 {
    if v == 0 {
        1
    } else {
        0
    }
}

/// 1 when bit 7 of `v` is set, else 0: the negative flag a value produces.
pub open spec fn n_of(v: u8) -> u8 {
    if v >= 128 {
        1
    } else {
        0
    }
}

/// The packed status byte of a register file: the flags in bit order
/// N V I B D Z C from bit 7 down to bit 1, exactly as `get_ps` packs
/// them.
pub open spec fn spec_ps_of(r: Regs) -> u8 {
    (r.n * 128 + r.v * 64 + r.i * 32 + r.b * 16 + r.d * 8 + r.z * 4 + r.c * 2) as u8
}

/// How many operand bytes follow the opcode byte in this mode.
pub open spec fn mode_len(mode: AddrMode) -> u16 {
    match mode {
        AddrMode::Accumulator(_) => 0,
        AddrMode::Immediate(_) => 1,
        AddrMode::ZeroPage(_) => 1,
        AddrMode::ZeroPageX(_) => 1,
        AddrMode::ZeroPageY(_) => 1,
        AddrMode::Absolute(_) => 2,
        AddrMode::AbsoluteX(_) => 2,
        AddrMode::AbsoluteY(_) => 2,
        AddrMode::Indirect(_) => 2,
        AddrMode::IndirectX(_) => 1,
        AddrMode::IndirectY(_) => 1,
        AddrMode::Relative(_) => 1,
        AddrMode::Implied(_) => 0,
    }
}

/// The program counter after the opcode and its operand bytes, with
/// wraparound.
pub open spec fn pc_after(mode: AddrMode, pc: u16) -> u16 {
    wrap_add16(pc, (mode_len(mode) + 1) as u16)
}

/// Whether the mode names a memory address (rather than an immediate
/// operand, a register, or nothing).
pub open spec fn mode_is_addressed(mode: AddrMode) -> bool {
    match mode {
        AddrMode::ZeroPage(_) => true,
        AddrMode::ZeroPageX(_) => true,
        AddrMode::ZeroPageY(_) => true,
        AddrMode::Absolute(_) => true,
        AddrMode::AbsoluteX(_) => true,
        AddrMode::AbsoluteY(_) => true,
        AddrMode::IndirectX(_) => true,
        AddrMode::IndirectY(_) => true,
        _ => false,
    }
}

/// The effective address an addressed mode resolves to, with `r.pc` still
/// at the opcode byte: zero-page sums wrap within the zero page, absolute
/// indexing and indirect-plus-Y wrap at the top of the address space, and
/// indirect words read two successive bytes little-endian.
pub open spec fn spec_ea(mode: AddrMode, r: Regs, m: Seq<u8>) -> u16 {
    let o1 = m[wrap_add16(r.pc, 1) as int];
    match mode {
        AddrMode::ZeroPage(_) => o1 as u16,
        AddrMode::ZeroPageX(_) => wrap_add8(o1, r.x) as u16,
        AddrMode::ZeroPageY(_) => wrap_add8(o1, r.y) as u16,
        AddrMode::Absolute(_) => spec_word(m, wrap_add16(r.pc, 1)),
        AddrMode::AbsoluteX(_) => wrap_add16(spec_word(m, wrap_add16(r.pc, 1)), r.x as u16),
        AddrMode::AbsoluteY(_) => wrap_add16(spec_word(m, wrap_add16(r.pc, 1)), r.y as u16),
        AddrMode::IndirectX(_) => spec_word(m, wrap_add8(o1, r.x) as u16),
        AddrMode::IndirectY(_) => wrap_add16(spec_word(m, o1 as u16), r.y as u16),
        _ => 0,
    }
}

/// The byte a read instruction sees: the operand byte itself in immediate
/// mode, else the byte at the effective address.
pub open spec fn spec_operand(mode: AddrMode, r: Regs, m: Seq<u8>) -> u8 {
    match mode {
        AddrMode::Immediate(_) => m[wrap_add16(r.pc, 1) as int],
        _ => m[spec_ea(mode, r, m) as int],
    }
}

/// What LDA does: copy the operand into A and set Z/N from it, for the
/// eight modes LDA decodes to; `None` for any other mode.
pub open spec fn spec_lda(r: Regs, m: Seq<u8>, mode: AddrMode) -> Option<Regs> {
    match mode {
        AddrMode::Immediate(_)
        | AddrMode::ZeroPage(_)
        | AddrMode::ZeroPageX(_)
        | AddrMode::Absolute(_)
        | AddrMode::AbsoluteX(_)
        | AddrMode::AbsoluteY(_)
        | AddrMode::IndirectX(_)
        | AddrMode::IndirectY(_) => {
            let val = spec_operand(mode, r, m);
            Some(
                Regs {
                    a: val,
                    z: z_of(val),
                    n: n_of(val),
                    pc: pc_after(mode, r.pc),
                    ..r
                },
            )
        },
        _ => None,
    }
}

/// What LDX does, for the five modes LDX decodes to.
pub open spec fn spec_ldx(r: Regs, m: Seq<u8>, mode: AddrMode) -> Option<Regs> {
    match mode {
        AddrMode::Immediate(_)
        | AddrMode::ZeroPage(_)
        | AddrMode::ZeroPageY(_)
        | AddrMode::Absolute(_)
        | AddrMode::AbsoluteY(_) => {
            let val = spec_operand(mode, r, m);
            Some(
                Regs {
                    x: val,
                    z: z_of(val),
                    n: n_of(val),
                    pc: pc_after(mode, r.pc),
                    ..r
                },
            )
        },
        _ => None,
    }
}

/// What LDY does, for the five modes LDY decodes to.
pub open spec fn spec_ldy(r: Regs, m: Seq<u8>, mode: AddrMode) -> Option<Regs> {
    match mode {
        AddrMode::Immediate(_)
        | AddrMode::ZeroPage(_)
        | AddrMode::ZeroPageX(_)
        | AddrMode::Absolute(_)
        | AddrMode::AbsoluteX(_) => {
            let val = spec_operand(mode, r, m);
            Some(
                Regs {
                    y: val,
                    z: z_of(val),
                    n: n_of(val),
                    pc: pc_after(mode, r.pc),
                    ..r
                },
            )
        },
        _ => None,
    }
}

/// What STA does: write A at the effective address, no flag changes, for
/// the seven modes STA decodes to.
pub open spec fn spec_sta(r: Regs, m: Seq<u8>, mode: AddrMode) -> Option<(Regs, Seq<u8>)> {
    match mode {
        AddrMode::ZeroPage(_)
        | AddrMode::ZeroPageX(_)
        | AddrMode::Absolute(_)
        | AddrMode::AbsoluteX(_)
        | AddrMode::AbsoluteY(_)
        | AddrMode::IndirectX(_)
        | AddrMode::IndirectY(_) => Some(
            (
                Regs { pc: pc_after(mode, r.pc), ..r },
                m.update(spec_ea(mode, r, m) as int, r.a),
            ),
        ),
        _ => None,
    }
}

/// What STX does, for the three modes STX decodes to.
pub open spec fn spec_stx(r: Regs, m: Seq<u8>, mode: AddrMode) -> Option<(Regs, Seq<u8>)> {
    match mode {
        AddrMode::ZeroPage(_) | AddrMode::ZeroPageY(_) | AddrMode::Absolute(_) => Some(
            (
                Regs { pc: pc_after(mode, r.pc), ..r },
                m.update(spec_ea(mode, r, m) as int, r.x),
            ),
        ),
        _ => None,
    }
}

/// What STY does, for the three modes STY decodes to.
pub open spec fn spec_sty(r: Regs, m: Seq<u8>, mode: AddrMode) -> Option<(Regs, Seq<u8>)> {
    match mode {
        AddrMode::ZeroPage(_) | AddrMode::ZeroPageX(_) | AddrMode::Absolute(_) => Some(
            (
                Regs { pc: pc_after(mode, r.pc), ..r },
                m.update(spec_ea(mode, r, m) as int, r.y),
            ),
        ),
        _ => None,
    }
}

/// What INC does: add one with 8-bit wraparound at the effective address
/// and set Z/N from the new value, for the four modes INC decodes to.
pub open spec fn spec_inc(r: Regs, m: Seq<u8>, mode: AddrMode) -> Option<(Regs, Seq<u8>)> {
    match mode {
        AddrMode::ZeroPage(_) | AddrMode::ZeroPageX(_) | AddrMode::Absolute(_)
        | AddrMode::AbsoluteX(_) => {
            let ea = spec_ea(mode, r, m);
            let nv = wrap_add8(m[ea as int], 1);
            Some(
                (
                    Regs { pc: pc_after(mode, r.pc), z: z_of(nv), n: n_of(nv), ..r },
                    m.update(ea as int, nv),
                ),
            )
        },
        _ => None,
    }
}

/// What DEC does: subtract one with 8-bit wraparound at the effective
/// address and set Z/N from the new value, for the four modes DEC
/// decodes to.
pub open spec fn spec_dec(r: Regs, m: Seq<u8>, mode: AddrMode) -> Option<(Regs, Seq<u8>)> {
    match mode {
        AddrMode::ZeroPage(_) | AddrMode::ZeroPageX(_) | AddrMode::Absolute(_)
        | AddrMode::AbsoluteX(_) => {
            let ea = spec_ea(mode, r, m);
            let nv = wrap_sub8(m[ea as int], 1);
            Some(
                (
                    Regs { pc: pc_after(mode, r.pc), z: z_of(nv), n: n_of(nv), ..r },
                    m.update(ea as int, nv),
                ),
            )
        },
        _ => None,
    }
}

/// What BRK does: set the interrupt-disable flag, push the wrapped
/// return address high byte first and then the packed status byte (the
/// flags with the interrupt-disable flag already set and the break flag
/// still old) through the stack page, load PC from the little-endian
/// vector at 0xFFFE/0xFFFF, and set the break flag.
pub open spec fn spec_brk(r: Regs, m: Seq<u8>) -> (Regs, Seq<u8>) {
    let ret = wrap_add16(r.pc, 3);
    let m2 = m.update(stack_addr(r.sp), (ret / 256) as u8).update(
        stack_addr(wrap_sub8(r.sp, 1)),
        (ret % 256) as u8,
    ).update(stack_addr(wrap_sub8(r.sp, 2)), spec_ps_of(Regs { i: 1, ..r }));
    (
        Regs {
            pc: spec_word(m2, 0xFFFE),
            sp: wrap_sub8(r.sp, 3),
            i: 1,
            b: 1,
            ..r
        },
        m2,
    )
}

/// One engine step as a pure transition: fetch the opcode byte at PC,
/// decode it against the table, and apply the mnemonic's effect. Returns
/// the next register file and memory, the opcode byte, the base cycle
/// cost of the table entry, and whether the step halted the engine; or
/// the error the step fails with, which leaves PC advanced past the
/// opcode byte and everything else unchanged. Opaque: its callers reason
/// through [`lemma_step_cycles`] and the ensures of `execute_instruction`.
#[verifier::opaque]
pub open spec fn spec_step(r: Regs, m: Seq<u8>) -> Result<
    (Regs, Seq<u8>, u8, u32, bool),
    EmuError,
> {
    let op = m[r.pc as int];
    match spec_resolve(op) {
        None => Err(EmuError::UnknownOpcode(op)),
        Some(ins) => match ins {
            Instructions::LDA(mode) => match spec_lda(r, m, mode) {
                Some(r2) => Ok((r2, m, op, mode.spec_code().cycles, false)),
                None => Err(EmuError::UnsupportedAddressingMode(op)),
            },
            Instructions::LDX(mode) => match spec_ldx(r, m, mode) {
                Some(r2) => Ok((r2, m, op, mode.spec_code().cycles, false)),
                None => Err(EmuError::UnsupportedAddressingMode(op)),
            },
            Instructions::LDY(mode) => match spec_ldy(r, m, mode) {
                Some(r2) => Ok((r2, m, op, mode.spec_code().cycles, false)),
                None => Err(EmuError::UnsupportedAddressingMode(op)),
            },
            Instructions::STA(mode) => match spec_sta(r, m, mode) {
                Some((r2, m2)) => Ok((r2, m2, op, mode.spec_code().cycles, false)),
                None => Err(EmuError::UnsupportedAddressingMode(op)),
            },
            Instructions::STX(mode) => match spec_stx(r, m, mode) {
                Some((r2, m2)) => Ok((r2, m2, op, mode.spec_code().cycles, false)),
                None => Err(EmuError::UnsupportedAddressingMode(op)),
            },
            Instructions::STY(mode) => match spec_sty(r, m, mode) {
                Some((r2, m2)) => Ok((r2, m2, op, mode.spec_code().cycles, false)),
                None => Err(EmuError::UnsupportedAddressingMode(op)),
            },
            Instructions::INC(mode) => match spec_inc(r, m, mode) {
                Some((r2, m2)) => Ok((r2, m2, op, mode.spec_code().cycles, false)),
                None => Err(EmuError::UnsupportedAddressingMode(op)),
            },
            Instructions::DEC(mode) => match spec_dec(r, m, mode) {
                Some((r2, m2)) => Ok((r2, m2, op, mode.spec_code().cycles, false)),
                None => Err(EmuError::UnsupportedAddressingMode(op)),
            },
            Instructions::INX(mode) => match mode {
                AddrMode::Implied(code) => {
                    let nv = wrap_add8(r.x, 1);
                    Ok(
                        (
                            Regs {
                                x: nv,
                                z: z_of(nv),
                                n: n_of(nv),
                                pc: wrap_add16(r.pc, 1),
                                ..r
                            },
                            m,
                            op,
                            code.cycles,
                            false,
                        ),
                    )
                },
                _ => Err(EmuError::UnsupportedAddressingMode(op)),
            },
            Instructions::INY(mode) => match mode {
                AddrMode::Implied(code) => {
                    let nv = wrap_add8(r.y, 1);
                    Ok(
                        (
                            Regs {
                                y: nv,
                                z: z_of(nv),
                                n: n_of(nv),
                                pc: wrap_add16(r.pc, 1),
                                ..r
                            },
                            m,
                            op,
                            code.cycles,
                            false,
                        ),
                    )
                },
                _ => Err(EmuError::UnsupportedAddressingMode(op)),
            },
            Instructions::DEX(mode) => match mode {
                AddrMode::Implied(code) => {
                    let nv = wrap_sub8(r.x, 1);
                    Ok(
                        (
                            Regs {
                                x: nv,
                                z: z_of(nv),
                                n: n_of(nv),
                                pc: wrap_add16(r.pc, 1),
                                ..r
                            },
                            m,
                            op,
                            code.cycles,
                            false,
                        ),
                    )
                },
                _ => Err(EmuError::UnsupportedAddressingMode(op)),
            },
            Instructions::DEY(mode) => match mode {
                AddrMode::Implied(code) => {
                    let nv = wrap_sub8(r.y, 1);
                    Ok(
                        (
                            Regs {
                                y: nv,
                                z: z_of(nv),
                                n: n_of(nv),
                                pc: wrap_add16(r.pc, 1),
                                ..r
                            },
                            m,
                            op,
                            code.cycles,
                            false,
                        ),
                    )
                },
                _ => Err(EmuError::UnsupportedAddressingMode(op)),
            },
            Instructions::TAX(mode) => match mode {
                AddrMode::Implied(code) => Ok(
                    (
                        Regs {
                            x: r.a,
                            z: z_of(r.a),
                            n: n_of(r.a),
                            pc: wrap_add16(r.pc, 1),
                            ..r
                        },
                        m,
                        op,
                        code.cycles,
                        false,
                    ),
                ),
                _ => Err(EmuError::UnsupportedAddressingMode(op)),
            },
            Instructions::TAY(mode) => match mode {
                AddrMode::Implied(code) => Ok(
                    (
                        Regs {
                            y: r.a,
                            z: z_of(r.a),
                            n: n_of(r.a),
                            pc: wrap_add16(r.pc, 1),
                            ..r
                        },
                        m,
                        op,
                        code.cycles,
                        false,
                    ),
                ),
                _ => Err(EmuError::UnsupportedAddressingMode(op)),
            },
            Instructions::TSX(mode) => match mode {
                AddrMode::Implied(code) => Ok(
                    (
                        Regs {
                            x: r.sp,
                            z: z_of(r.sp),
                            n: n_of(r.sp),
                            pc: wrap_add16(r.pc, 1),
                            ..r
                        },
                        m,
                        op,
                        code.cycles,
                        false,
                    ),
                ),
                _ => Err(EmuError::UnsupportedAddressingMode(op)),
            },
            Instructions::TXA(mode) => match mode {
                AddrMode::Implied(code) => Ok(
                    (
                        Regs {
                            a: r.x,
                            z: z_of(r.x),
                            n: n_of(r.x),
                            pc: wrap_add16(r.pc, 1),
                            ..r
                        },
                        m,
                        op,
                        code.cycles,
                        false,
                    ),
                ),
                _ => Err(EmuError::UnsupportedAddressingMode(op)),
            },
            Instructions::TXS(mode) => match mode {
                AddrMode::Implied(code) => Ok(
                    (Regs { sp: r.x, pc: wrap_add16(r.pc, 1), ..r }, m, op, code.cycles, false),
                ),
                _ => Err(EmuError::UnsupportedAddressingMode(op)),
            },
            Instructions::TYA(mode) => match mode {
                AddrMode::Implied(code) => Ok(
                    (
                        Regs {
                            a: r.y,
                            z: z_of(r.y),
                            n: n_of(r.y),
                            pc: wrap_add16(r.pc, 1),
                            ..r
                        },
                        m,
                        op,
                        code.cycles,
                        false,
                    ),
                ),
                _ => Err(EmuError::UnsupportedAddressingMode(op)),
            },
            Instructions::CLC(mode) => match mode {
                AddrMode::Implied(code) => Ok(
                    (Regs { c: 0, pc: wrap_add16(r.pc, 1), ..r }, m, op, code.cycles, false),
                ),
                _ => Err(EmuError::UnsupportedAddressingMode(op)),
            },
            Instructions::CLD(mode) => match mode {
                AddrMode::Implied(code) => Ok(
                    (Regs { d: 0, pc: wrap_add16(r.pc, 1), ..r }, m, op, code.cycles, false),
                ),
                _ => Err(EmuError::UnsupportedAddressingMode(op)),
            },
            Instructions::CLI(mode) => match mode {
                AddrMode::Implied(code) => Ok(
                    (Regs { i: 0, pc: wrap_add16(r.pc, 1), ..r }, m, op, code.cycles, false),
                ),
                _ => Err(EmuError::UnsupportedAddressingMode(op)),
            },
            Instructions::CLV(mode) => match mode {
                AddrMode::Implied(code) => Ok(
                    (Regs { v: 0, pc: wrap_add16(r.pc, 1), ..r }, m, op, code.cycles, false),
                ),
                _ => Err(EmuError::UnsupportedAddressingMode(op)),
            },
            Instructions::SEC(mode) => match mode {
                AddrMode::Implied(code) => Ok(
                    (Regs { c: 1, pc: wrap_add16(r.pc, 1), ..r }, m, op, code.cycles, false),
                ),
                _ => Err(EmuError::UnsupportedAddressingMode(op)),
            },
            Instructions::SED(mode) => match mode {
                AddrMode::Implied(code) => Ok(
                    (Regs { d: 1, pc: wrap_add16(r.pc, 1), ..r }, m, op, code.cycles, false),
                ),
                _ => Err(EmuError::UnsupportedAddressingMode(op)),
            },
            Instructions::SEI(mode) => match mode {
                AddrMode::Implied(code) => Ok(
                    (Regs { i: 1, pc: wrap_add16(r.pc, 1), ..r }, m, op, code.cycles, false),
                ),
                _ => Err(EmuError::UnsupportedAddressingMode(op)),
            },
            Instructions::BRK(mode) => match mode {
                AddrMode::Implied(code) => {
                    let (r2, m2) = spec_brk(r, m);
                    Ok((r2, m2, op, code.cycles, true))
                },
                _ => Err(EmuError::UnsupportedAddressingMode(op)),
            },
            _ => Err(EmuError::UnsupportedAddressingMode(op)),
        },
    }
}

/// `k` successful, non-halting steps lead from `(r0, m0)` to `(r1, m1)`,
/// together consuming `cyc` cycles.
pub open spec fn spec_reaches(
    r0: Regs,
    m0: Seq<u8>,
    r1: Regs,
    m1: Seq<u8>,
    cyc: nat,
    k: nat,
) -> bool
    decreases k,
{
    if k == 0 {
        r1 == r0 && m1 == m0 && cyc == 0
    } else {
        match spec_step(r0, m0) {
            Ok(res) => !res.4 && cyc >= res.3 && spec_reaches(
                res.0,
                res.1,
                r1,
                m1,
                (cyc - res.3) as nat,
                (k - 1) as nat,
            ),
            Err(_) => false,
        }
    }
}

/// A trace may be extended by one more successful, non-halting step at
/// its end.
pub proof fn lemma_reaches_snoc(
    r0: Regs,
    m0: Seq<u8>,
    r1: Regs,
    m1: Seq<u8>,
    cyc: nat,
    k: nat,
    res: (Regs, Seq<u8>, u8, u32, bool),
)
    requires
        spec_reaches(r0, m0, r1, m1, cyc, k),
        spec_step(r1, m1) == Ok::<(Regs, Seq<u8>, u8, u32, bool), EmuError>(res),
        !res.4,
    ensures
        spec_reaches(r0, m0, res.0, res.1, (cyc + res.3) as nat, (k + 1) as nat),
    decreases k,
{
    if k == 0 {
        assert(spec_reaches(res.0, res.1, res.0, res.1, 0, 0));
    } else {
        let first = spec_step(r0, m0)->Ok_0;
        lemma_reaches_snoc(first.0, first.1, r1, m1, (cyc - first.3) as nat, (k - 1) as nat, res);
    }
}

/// A successful step consumes exactly its table entry's base cycle cost,
/// which is between two and seven cycles.
pub proof fn lemma_step_cycles(r: Regs, m: Seq<u8>)
    ensures
        match spec_step(r, m) {
            Ok(res) => spec_resolve(m[r.pc as int]) matches Some(ins) && res.3
                == ins.spec_mode().spec_code().cycles && 2 <= res.3 <= 7,
            Err(_) => true,
        },
{
    reveal(spec_step);
    lemma_resolve_cycles(m[r.pc as int]);
}

/// The bounded run as a pure function: step repeatedly, stopping before
/// any step whose base cycle cost exceeds the budget that is left, or
/// when a step halts or fails. Returns the final registers and memory,
/// the budget that is left, and the error the run ends with, if any;
/// a failing step leaves PC advanced past its opcode byte.
pub open spec fn spec_run_sized(r: Regs, m: Seq<u8>, budget: u32) -> (
    Regs,
    Seq<u8>,
    u32,
    Option<EmuError>,
)
    decreases budget,
    via spec_run_sized_decreases
{
    match spec_resolve(m[r.pc as int]) {
        None => (
            Regs { pc: wrap_add16(r.pc, 1), ..r },
            m,
            budget,
            Some(EmuError::UnknownOpcode(m[r.pc as int])),
        ),
        Some(ins) => {
            if ins.spec_mode().spec_code().cycles > budget {
                (r, m, budget, None)
            } else {
                match spec_step(r, m) {
                    Err(e) => (Regs { pc: wrap_add16(r.pc, 1), ..r }, m, budget, Some(e)),
                    Ok(res) => {
                        if res.4 {
                            (res.0, res.1, (budget - res.3) as u32, None)
                        } else {
                            spec_run_sized(res.0, res.1, (budget - res.3) as u32)
                        }
                    },
                }
            }
        },
    }
}

#[via_fn]
proof fn spec_run_sized_decreases(r: Regs, m: Seq<u8>, budget: u32) {
    reveal(spec_step);
    lemma_resolve_cycles(m[r.pc as int]);
}

/// Read the little-endian word at `address`, the second byte at the
/// wrapped successor address.
fn word_at(mem: &MEM, address: u16) -> (r: u16)
    requires
        mem.wf(),
    ensures
        r == spec_word(mem@, address),
{
    let low = mem.read(address as usize);
    let high = mem.read(address.wrapping_add(1) as usize);
    (low as u16) + 256 * (high as u16)
}

/// How many operand bytes follow the opcode byte in this mode.
fn operand_len(mode: AddrMode) -> (r: u16)
    ensures
        r == mode_len(mode),
{
    match mode {
        AddrMode::Accumulator(_) => 0,
        AddrMode::Immediate(_) => 1,
        AddrMode::ZeroPage(_) => 1,
        AddrMode::ZeroPageX(_) => 1,
        AddrMode::ZeroPageY(_) => 1,
        AddrMode::Absolute(_) => 2,
        AddrMode::AbsoluteX(_) => 2,
        AddrMode::AbsoluteY(_) => 2,
        AddrMode::Indirect(_) => 2,
        AddrMode::IndirectX(_) => 1,
        AddrMode::IndirectY(_) => 1,
        AddrMode::Relative(_) => 1,
        AddrMode::Implied(_) => 0,
    }
}

/// The 6502 CPU: registers, flags, supervision mode, and the observer.
pub struct CPU<E> {
    /// Program counter.
    pub PC: u16,
    /// Status register.
    pub SR: u8,
    /// Stack pointer.
    pub SP: u8,
    /// Accumulator.
    pub A: u8,
    /// X register.
    pub X: u8,
    /// Y register.
    pub Y: u8,
    /// Status flags.
    pub status_flags: StatusFlags,
    /// Supervision mode.
    pub step: Step,
    /// Debug observer.
    pub messenger: Debugger<E>,
}

impl<E> CPU<E> where E: FnOnce(MessageType) + Copy {
    /// The registers and flags as a pure record.
    pub open spec fn regs(&self) -> Regs {
        Regs {
            pc: self.PC,
            sp: self.SP,
            sr: self.SR,
            a: self.A,
            x: self.X,
            y: self.Y,
            n: self.status_flags.N,
            v: self.status_flags.V,
            u: self.status_flags.U,
            i: self.status_flags.I,
            b: self.status_flags.B,
            d: self.status_flags.D,
            z: self.status_flags.Z,
            c: self.status_flags.C,
        }
    }

    /// The flag fields hold only 0 or 1.
    pub open spec fn wf(&self) -> bool {
        self.status_flags.wf()
    }

    /// Create a CPU in its power-on state, owning `messenger` as its
    /// debug observer.
    pub fn new(messenger: E) -> (r: CPU<E>)
        ensures
            r.wf(),
            r.regs() == (Regs {
                pc: 600,
                sp: 0xFF,
                sr: 0xFF,
                a: 0,
                x: 0,
                y: 0,
                n: 0,
                v: 0,
                u: 1,
                i: 0,
                b: 0,
                d: 0,
                z: 0,
                c: 0,
            }),
            r.step == Step::Unsupervised,
            r.messenger.messenger == messenger,
            r.messenger.breakpoints@ == Seq::<u16>::empty(),
    {
        CPU {
            PC: 600,
            SR: 0xFF,
            SP: 0xFF,
            status_flags: StatusFlags { N: 0, V: 0, U: 1, I: 0, B: 0, D: 0, Z: 0, C: 0 },
            A: 0,
            X: 0,
            Y: 0,
            step: Step::Unsupervised,
            messenger: Debugger::new(messenger),
        }
    }

    /// Pass `message_type` to the observer when supervision is on.
    fn emit_debugger(&mut self, message_type: MessageType)
        requires
            old(self).step == Step::Supervised ==> call_requires(
                old(self).messenger.messenger,
                (message_type,),
            ),
        ensures
            *final(self) == *old(self),
    {
        if self.step == Step::Supervised {
            (self.messenger.messenger)(message_type);
        }
    }

    /// Reinitialize every register and flag to its power-on value, point
    /// the program counter at `pc`, and zero the whole memory image.
    pub fn reset(&mut self, pc: u16, mem: &mut MEM)
        ensures
            final(self).wf(),
            final(self).regs() == (Regs {
                pc: pc,
                sp: 0xFF,
                sr: 0xFF,
                a: 0,
                x: 0,
                y: 0,
                n: 0,
                v: 0,
                u: 1,
                i: 0,
                b: 0,
                d: 0,
                z: 0,
                c: 0,
            }),
            final(self).step == old(self).step,
            final(self).messenger == old(self).messenger,
            final(mem).wf(),
            forall|i: int| 0 <= i < MAX_MEM ==> final(mem)@[i] == 0u8,
    {
        self.PC = pc;
        self.A = 0;
        self.X = 0;
        self.Y = 0;
        self.SR = 0xff;
        self.SP = 0xff;

        self.status_flags.N = 0;
        self.status_flags.V = 0;
        self.status_flags.U = 1;
        self.status_flags.I = 0;
        self.status_flags.B = 0;
        self.status_flags.D = 0;
        self.status_flags.Z = 0;
        self.status_flags.C = 0;
        mem.initalize();
    }

    /// Fetch the byte at PC, advance PC with wraparound, and charge one
    /// cycle.
    pub fn fetch_byte(&mut self, cycles: &mut u32, mem: &mut MEM) -> (r: u8)
        requires
            old(mem).wf(),
            *old(cycles) >= 1,
        ensures
            r == old(mem)@[old(self).PC as int],
            *final(self) == (CPU { PC: wrap_add16(old(self).PC, 1), ..*old(self) }),
            final(mem)@ == old(mem)@,
            *final(cycles) == *old(cycles) - 1,
    {
        let data: u8 = mem.read(self.PC as usize);
        self.PC = self.PC.wrapping_add(1);
        *cycles = *cycles - 1;
        data
    }

    /// Write `value` at `address` and charge one cycle.
    pub fn write_byte(&mut self, cycles: &mut u32, mem: &mut MEM, address: u16, value: u8)
        requires
            old(mem).wf(),
            *old(cycles) >= 1,
        ensures
            *final(self) == *old(self),
            final(mem)@ == old(mem)@.update(address as int, value),
            *final(cycles) == *old(cycles) - 1,
    {
        mem.write(address as usize, value);
        *cycles = *cycles - 1;
    }

    /// Write the 16-bit `value` little-endian at the zero-page pair
    /// `address`, `address + 1`, charging two cycles.
    pub fn write_word(&mut self, cycles: &mut u32, mem: &mut MEM, address: u8, value: u16)
        requires
            old(mem).wf(),
            *old(cycles) >= 2,
            address < 255,
        ensures
            *final(self) == *old(self),
            final(mem)@ == old(mem)@.update(address as int, (value % 256) as u8).update(
                address as int + 1,
                (value / 256) as u8,
            ),
            *final(cycles) == *old(cycles) - 2,
    {
        mem.write(address as usize, (value % 256) as u8);
        mem.write(address as usize + 1, (value / 256) as u8);
        *cycles = *cycles - 2;
    }

    /// Read the byte at `address` and charge one cycle.
    pub fn read_byte(&mut self, cycles: &mut u32, mem: &mut MEM, address: u16) -> (r: u8)
        requires
            old(mem).wf(),
            *old(cycles) >= 1,
        ensures
            r == old(mem)@[address as int],
            *final(self) == *old(self),
            final(mem)@ == old(mem)@,
            *final(cycles) == *old(cycles) - 1,
    {
        let data: u8 = mem.read(address as usize);
        *cycles = *cycles - 1;
        data
    }

    /// Read the little-endian word at `address` (its second byte at the
    /// wrapped successor address) and charge two cycles.
    pub fn read_word(&mut self, cycles: &mut u32, mem: &mut MEM, address: u16) -> (r: u16)
        requires
            old(mem).wf(),
            *old(cycles) >= 2,
        ensures
            r == spec_word(old(mem)@, address),
            *final(self) == *old(self),
            final(mem)@ == old(mem)@,
            *final(cycles) == *old(cycles) - 2,
    {
        let low = self.read_byte(cycles, mem, address);
        let high = self.read_byte(cycles, mem, address.wrapping_add(1));
        (low as u16) + 256 * (high as u16)
    }

    /// Fetch the little-endian word at PC, advance PC by two with
    /// wraparound, and charge two cycles.
    pub fn fetch_word(&mut self, cycles: &mut u32, mem: &mut MEM) -> (r: u16)
        requires
            old(mem).wf(),
            *old(cycles) >= 2,
        ensures
            r == spec_word(old(mem)@, old(self).PC),
            *final(self) == (CPU { PC: wrap_add16(old(self).PC, 2), ..*old(self) }),
            final(mem)@ == old(mem)@,
            *final(cycles) == *old(cycles) - 2,
    {
        let low = self.fetch_byte(cycles, mem);
        let high = self.fetch_byte(cycles, mem);
        (low as u16) + 256 * (high as u16)
    }

    /// Push one byte at the stack page address of SP, then decrement SP
    /// with wraparound, charging one cycle.
    pub fn push_byte_to_stack(&mut self, cycles: &mut u32, mem: &mut MEM, value: u8)
        requires
            old(mem).wf(),
            *old(cycles) >= 1,
        ensures
            *final(self) == (CPU { SP: wrap_sub8(old(self).SP, 1), ..*old(self) }),
            final(mem)@ == old(mem)@.update(stack_addr(old(self).SP), value),
            *final(cycles) == *old(cycles) - 1,
    {
        let address: u16 = 0x100 + self.SP as u16;
        self.write_byte(cycles, mem, address, value);
        self.SP = self.SP.wrapping_sub(1);
    }

    /// Set the zero and negative flags from `value`.
    fn set_zn(&mut self, value: u8)
        ensures
            *final(self) == (CPU {
                status_flags: StatusFlags {
                    Z: z_of(value),
                    N: n_of(value),
                    ..old(self).status_flags
                },
                ..*old(self)
            }),
    {
        self.status_flags.Z = if value == 0 {
            1
        } else {
            0
        };
        self.status_flags.N = if value >= 128 {
            1
        } else {
            0
        };
    }

    /// Advance PC past the opcode byte and this mode's operand bytes,
    /// with wraparound.
    fn advance_pc(&mut self, mode: AddrMode)
        ensures
            *final(self) == (CPU { PC: pc_after(mode, old(self).PC), ..*old(self) }),
    {
        let len = operand_len(mode);
        self.PC = self.PC.wrapping_add(1 + len);
    }

    /// Resolve an addressed mode to its effective address, with PC still
    /// at the opcode byte.
    fn effective_addr(&self, mode: AddrMode, mem: &MEM) -> (r: u16)
        requires
            mem.wf(),
            mode_is_addressed(mode),
        ensures
            r == spec_ea(mode, self.regs(), mem@),
    {
        let operand_pc = self.PC.wrapping_add(1);
        match mode {
            AddrMode::ZeroPage(_) => mem.read(operand_pc as usize) as u16,
            AddrMode::ZeroPageX(_) => mem.read(operand_pc as usize).wrapping_add(self.X) as u16,
            AddrMode::ZeroPageY(_) => mem.read(operand_pc as usize).wrapping_add(self.Y) as u16,
            AddrMode::Absolute(_) => word_at(mem, operand_pc),
            AddrMode::AbsoluteX(_) => word_at(mem, operand_pc).wrapping_add(self.X as u16),
            AddrMode::AbsoluteY(_) => word_at(mem, operand_pc).wrapping_add(self.Y as u16),
            AddrMode::IndirectX(_) => {
                let zp = mem.read(operand_pc as usize).wrapping_add(self.X);
                word_at(mem, zp as u16)
            },
            AddrMode::IndirectY(_) => {
                let base = mem.read(operand_pc as usize) as u16;
                word_at(mem, base).wrapping_add(self.Y as u16)
            },
            _ => 0,
        }
    }

    /// Read the byte a read instruction sees: the operand byte itself in
    /// immediate mode, else the byte at the effective address.
    fn read_operand(&self, mode: AddrMode, mem: &MEM) -> (r: u8)
        requires
            mem.wf(),
            mode_is_addressed(mode) || mode is Immediate,
        ensures
            r == spec_operand(mode, self.regs(), mem@),
    {
        match mode {
            AddrMode::Immediate(_) => mem.read(self.PC.wrapping_add(1) as usize),
            _ => {
                let addr = self.effective_addr(mode, mem);
                mem.read(addr as usize)
            },
        }
    }

    /// Apply LDA for `mode`; false when the mode is not one LDA decodes
    /// to, leaving the CPU untouched.
    fn op_lda(&mut self, mode: AddrMode, mem: &MEM) -> (ok: bool)
        requires
            old(self).wf(),
            mem.wf(),
        ensures
            final(self).wf(),
            final(self).step == old(self).step,
            final(self).messenger == old(self).messenger,
            match spec_lda(old(self).regs(), mem@, mode) {
                Some(r2) => ok && final(self).regs() == r2,
                None => !ok && *final(self) == *old(self),
            },
    {
        match mode {
            AddrMode::Immediate(_)
            | AddrMode::ZeroPage(_)
            | AddrMode::ZeroPageX(_)
            | AddrMode::Absolute(_)
            | AddrMode::AbsoluteX(_)
            | AddrMode::AbsoluteY(_)
            | AddrMode::IndirectX(_)
            | AddrMode::IndirectY(_) => {
                let val = self.read_operand(mode, mem);
                self.A = val;
                self.set_zn(val);
                self.advance_pc(mode);
                true
            },
            _ => false,
        }
    }

    /// Apply LDX for `mode`; false when the mode is not one LDX decodes
    /// to, leaving the CPU untouched.
    fn op_ldx(&mut self, mode: AddrMode, mem: &MEM) -> (ok: bool)
        requires
            old(self).wf(),
            mem.wf(),
        ensures
            final(self).wf(),
            final(self).step == old(self).step,
            final(self).messenger == old(self).messenger,
            match spec_ldx(old(self).regs(), mem@, mode) {
                Some(r2) => ok && final(self).regs() == r2,
                None => !ok && *final(self) == *old(self),
            },
    {
        match mode {
            AddrMode::Immediate(_)
            | AddrMode::ZeroPage(_)
            | AddrMode::ZeroPageY(_)
            | AddrMode::Absolute(_)
            | AddrMode::AbsoluteY(_) => {
                let val = self.read_operand(mode, mem);
                self.X = val;
                self.set_zn(val);
                self.advance_pc(mode);
                true
            },
            _ => false,
        }
    }

    /// Apply LDY for `mode`; false when the mode is not one LDY decodes
    /// to, leaving the CPU untouched.
    fn op_ldy(&mut self, mode: AddrMode, mem: &MEM) -> (ok: bool)
        requires
            old(self).wf(),
            mem.wf(),
        ensures
            final(self).wf(),
            final(self).step == old(self).step,
            final(self).messenger == old(self).messenger,
            match spec_ldy(old(self).regs(), mem@, mode) {
                Some(r2) => ok && final(self).regs() == r2,
                None => !ok && *final(self) == *old(self),
            },
    {
        match mode {
            AddrMode::Immediate(_)
            | AddrMode::ZeroPage(_)
            | AddrMode::ZeroPageX(_)
            | AddrMode::Absolute(_)
            | AddrMode::AbsoluteX(_) => {
                let val = self.read_operand(mode, mem);
                self.Y = val;
                self.set_zn(val);
                self.advance_pc(mode);
                true
            },
            _ => false,
        }
    }

    /// Apply STA for `mode`; false when the mode is not one STA decodes
    /// to, leaving the CPU and memory untouched.
    fn op_sta(&mut self, mode: AddrMode, mem: &mut MEM) -> (ok: bool)
        requires
            old(self).wf(),
            old(mem).wf(),
        ensures
            final(self).wf(),
            final(mem).wf(),
            final(self).step == old(self).step,
            final(self).messenger == old(self).messenger,
            match spec_sta(old(self).regs(), old(mem)@, mode) {
                Some((r2, m2)) => ok && final(self).regs() == r2 && final(mem)@ == m2,
                None => !ok && *final(self) == *old(self) && final(mem)@ == old(mem)@,
            },
    {
        match mode {
            AddrMode::ZeroPage(_)
            | AddrMode::ZeroPageX(_)
            | AddrMode::Absolute(_)
            | AddrMode::AbsoluteX(_)
            | AddrMode::AbsoluteY(_)
            | AddrMode::IndirectX(_)
            | AddrMode::IndirectY(_) => {
                let addr = self.effective_addr(mode, mem);
                mem.write(addr as usize, self.A);
                self.advance_pc(mode);
                true
            },
            _ => false,
        }
    }

    /// Apply STX for `mode`; false when the mode is not one STX decodes
    /// to, leaving the CPU and memory untouched.
    fn op_stx(&mut self, mode: AddrMode, mem: &mut MEM) -> (ok: bool)
        requires
            old(self).wf(),
            old(mem).wf(),
        ensures
            final(self).wf(),
            final(mem).wf(),
            final(self).step == old(self).step,
            final(self).messenger == old(self).messenger,
            match spec_stx(old(self).regs(), old(mem)@, mode) {
                Some((r2, m2)) => ok && final(self).regs() == r2 && final(mem)@ == m2,
                None => !ok && *final(self) == *old(self) && final(mem)@ == old(mem)@,
            },
    {
        match mode {
            AddrMode::ZeroPage(_) | AddrMode::ZeroPageY(_) | AddrMode::Absolute(_) => {
                let addr = self.effective_addr(mode, mem);
                mem.write(addr as usize, self.X);
                self.advance_pc(mode);
                true
            },
            _ => false,
        }
    }

    /// Apply STY for `mode`; false when the mode is not one STY decodes
    /// to, leaving the CPU and memory untouched.
    fn op_sty(&mut self, mode: AddrMode, mem: &mut MEM) -> (ok: bool)
        requires
            old(self).wf(),
            old(mem).wf(),
        ensures
            final(self).wf(),
            final(mem).wf(),
            final(self).step == old(self).step,
            final(self).messenger == old(self).messenger,
            match spec_sty(old(self).regs(), old(mem)@, mode) {
                Some((r2, m2)) => ok && final(self).regs() == r2 && final(mem)@ == m2,
                None => !ok && *final(self) == *old(self) && final(mem)@ == old(mem)@,
            },
    {
        match mode {
            AddrMode::ZeroPage(_) | AddrMode::ZeroPageX(_) | AddrMode::Absolute(_) => {
                let addr = self.effective_addr(mode, mem);
                mem.write(addr as usize, self.Y);
                self.advance_pc(mode);
                true
            },
            _ => false,
        }
    }

    /// Apply INC for `mode`; false when the mode is not one INC decodes
    /// to, leaving the CPU and memory untouched.
    fn op_inc(&mut self, mode: AddrMode, mem: &mut MEM) -> (ok: bool)
        requires
            old(self).wf(),
            old(mem).wf(),
        ensures
            final(self).wf(),
            final(mem).wf(),
            final(self).step == old(self).step,
            final(self).messenger == old(self).messenger,
            match spec_inc(old(self).regs(), old(mem)@, mode) {
                Some((r2, m2)) => ok && final(self).regs() == r2 && final(mem)@ == m2,
                None => !ok && *final(self) == *old(self) && final(mem)@ == old(mem)@,
            },
    {
        match mode {
            AddrMode::ZeroPage(_)
            | AddrMode::ZeroPageX(_)
            | AddrMode::Absolute(_)
            | AddrMode::AbsoluteX(_) => {
                let addr = self.effective_addr(mode, mem);
                let nv = mem.read(addr as usize).wrapping_add(1);
                mem.write(addr as usize, nv);
                self.set_zn(nv);
                self.advance_pc(mode);
                true
            },
            _ => false,
        }
    }

    /// Apply DEC for `mode`; false when the mode is not one DEC decodes
    /// to, leaving the CPU and memory untouched.
    fn op_dec(&mut self, mode: AddrMode, mem: &mut MEM) -> (ok: bool)
        requires
            old(self).wf(),
            old(mem).wf(),
        ensures
            final(self).wf(),
            final(mem).wf(),
            final(self).step == old(self).step,
            final(self).messenger == old(self).messenger,
            match spec_dec(old(self).regs(), old(mem)@, mode) {
                Some((r2, m2)) => ok && final(self).regs() == r2 && final(mem)@ == m2,
                None => !ok && *final(self) == *old(self) && final(mem)@ == old(mem)@,
            },
    {
        match mode {
            AddrMode::ZeroPage(_)
            | AddrMode::ZeroPageX(_)
            | AddrMode::Absolute(_)
            | AddrMode::AbsoluteX(_) => {
                let addr = self.effective_addr(mode, mem);
                let nv = mem.read(addr as usize).wrapping_sub(1);
                mem.write(addr as usize, nv);
                self.set_zn(nv);
                self.advance_pc(mode);
                true
            },
            _ => false,
        }
    }

    /// Execute one instruction: fetch the opcode byte at PC, decode it,
    /// resolve its addressing mode, and apply its effect, exactly as
    /// [`spec_step`] states. Returns the opcode byte, the base cycle cost
    /// consumed, and whether the step halted the engine. A step that
    /// fails returns the typed error with PC advanced past the opcode
    /// byte and everything else unchanged.
    pub fn execute_instruction(&mut self, mem: &mut MEM) -> (r: Result<(u8, u32, bool), EmuError>)
        requires
            old(self).wf(),
            old(mem).wf(),
        ensures
            final(self).wf(),
            final(mem).wf(),
            final(self).step == old(self).step,
            final(self).messenger == old(self).messenger,
            match spec_step(old(self).regs(), old(mem)@) {
                Ok(res) => r == Ok::<(u8, u32, bool), EmuError>((res.2, res.3, res.4))
                    && final(self).regs() == res.0 && final(mem)@ == res.1,
                Err(e) => r == Err::<(u8, u32, bool), EmuError>(e) && final(self).regs() == (Regs {
                    pc: wrap_add16(old(self).regs().pc, 1),
                    ..old(self).regs()
                }) && final(mem)@ == old(mem)@,
            },
    {
        proof {
            reveal(spec_step);
        }
        let opcode = mem.read(self.PC as usize);
        let ins = match Instructions::resolve(opcode) {
            Ok(i) => i,
            Err(e) => {
                self.PC = self.PC.wrapping_add(1);
                return Err(e);
            },
        };
        match ins {
            Instructions::LDA(mode) => {
                if self.op_lda(mode, mem) {
                    Ok((opcode, mode.code().cycles, false))
                } else {
                    self.PC = self.PC.wrapping_add(1);
                    Err(EmuError::UnsupportedAddressingMode(opcode))
                }
            },
            Instructions::LDX(mode) => {
                if self.op_ldx(mode, mem) {
                    Ok((opcode, mode.code().cycles, false))
                } else {
                    self.PC = self.PC.wrapping_add(1);
                    Err(EmuError::UnsupportedAddressingMode(opcode))
                }
            },
            Instructions::LDY(mode) => {
                if self.op_ldy(mode, mem) {
                    Ok((opcode, mode.code().cycles, false))
                } else {
                    self.PC = self.PC.wrapping_add(1);
                    Err(EmuError::UnsupportedAddressingMode(opcode))
                }
            },
            Instructions::STA(mode) => {
                if self.op_sta(mode, mem) {
                    Ok((opcode, mode.code().cycles, false))
                } else {
                    self.PC = self.PC.wrapping_add(1);
                    Err(EmuError::UnsupportedAddressingMode(opcode))
                }
            },
            Instructions::STX(mode) => {
                if self.op_stx(mode, mem) {
                    Ok((opcode, mode.code().cycles, false))
                } else {
                    self.PC = self.PC.wrapping_add(1);
                    Err(EmuError::UnsupportedAddressingMode(opcode))
                }
            },
            Instructions::STY(mode) => {
                if self.op_sty(mode, mem) {
                    Ok((opcode, mode.code().cycles, false))
                } else {
                    self.PC = self.PC.wrapping_add(1);
                    Err(EmuError::UnsupportedAddressingMode(opcode))
                }
            },
            Instructions::INC(mode) => {
                if self.op_inc(mode, mem) {
                    Ok((opcode, mode.code().cycles, false))
                } else {
                    self.PC = self.PC.wrapping_add(1);
                    Err(EmuError::UnsupportedAddressingMode(opcode))
                }
            },
            Instructions::DEC(mode) => {
                if self.op_dec(mode, mem) {
                    Ok((opcode, mode.code().cycles, false))
                } else {
                    self.PC = self.PC.wrapping_add(1);
                    Err(EmuError::UnsupportedAddressingMode(opcode))
                }
            },
            Instructions::INX(mode) => match mode {
                AddrMode::Implied(code) => {
                    self.X = self.X.wrapping_add(1);
                    let v = self.X;
                    self.set_zn(v);
                    self.PC = self.PC.wrapping_add(1);
                    Ok((opcode, code.cycles, false))
                },
                _ => {
                    self.PC = self.PC.wrapping_add(1);
                    Err(EmuError::UnsupportedAddressingMode(opcode))
                },
            },
            Instructions::INY(mode) => match mode {
                AddrMode::Implied(code) => {
                    self.Y = self.Y.wrapping_add(1);
                    let v = self.Y;
                    self.set_zn(v);
                    self.PC = self.PC.wrapping_add(1);
                    Ok((opcode, code.cycles, false))
                },
                _ => {
                    self.PC = self.PC.wrapping_add(1);
                    Err(EmuError::UnsupportedAddressingMode(opcode))
                },
            },
            Instructions::DEX(mode) => match mode {
                AddrMode::Implied(code) => {
                    self.X = self.X.wrapping_sub(1);
                    let v = self.X;
                    self.set_zn(v);
                    self.PC = self.PC.wrapping_add(1);
                    Ok((opcode, code.cycles, false))
                },
                _ => {
                    self.PC = self.PC.wrapping_add(1);
                    Err(EmuError::UnsupportedAddressingMode(opcode))
                },
            },
            Instructions::DEY(mode) => match mode {
                AddrMode::Implied(code) => {
                    self.Y = self.Y.wrapping_sub(1);
                    let v = self.Y;
                    self.set_zn(v);
                    self.PC = self.PC.wrapping_add(1);
                    Ok((opcode, code.cycles, false))
                },
                _ => {
                    self.PC = self.PC.wrapping_add(1);
                    Err(EmuError::UnsupportedAddressingMode(opcode))
                },
            },
            Instructions::TAX(mode) => match mode {
                AddrMode::Implied(code) => {
                    self.X = self.A;
                    let v = self.X;
                    self.set_zn(v);
                    self.PC = self.PC.wrapping_add(1);
                    Ok((opcode, code.cycles, false))
                },
                _ => {
                    self.PC = self.PC.wrapping_add(1);
                    Err(EmuError::UnsupportedAddressingMode(opcode))
                },
            },
            Instructions::TAY(mode) => match mode {
                AddrMode::Implied(code) => {
                    self.Y = self.A;
                    let v = self.Y;
                    self.set_zn(v);
                    self.PC = self.PC.wrapping_add(1);
                    Ok((opcode, code.cycles, false))
                },
                _ => {
                    self.PC = self.PC.wrapping_add(1);
                    Err(EmuError::UnsupportedAddressingMode(opcode))
                },
            },
            Instructions::TSX(mode) => match mode {
                AddrMode::Implied(code) => {
                    self.X = self.SP;
                    let v = self.X;
                    self.set_zn(v);
                    self.PC = self.PC.wrapping_add(1);
                    Ok((opcode, code.cycles, false))
                },
                _ => {
                    self.PC = self.PC.wrapping_add(1);
                    Err(EmuError::UnsupportedAddressingMode(opcode))
                },
            },
            Instructions::TXA(mode) => match mode {
                AddrMode::Implied(code) => {
                    self.A = self.X;
                    let v = self.A;
                    self.set_zn(v);
                    self.PC = self.PC.wrapping_add(1);
                    Ok((opcode, code.cycles, false))
                },
                _ => {
                    self.PC = self.PC.wrapping_add(1);
                    Err(EmuError::UnsupportedAddressingMode(opcode))
                },
            },
            Instructions::TXS(mode) => match mode {
                AddrMode::Implied(code) => {
                    self.SP = self.X;
                    self.PC = self.PC.wrapping_add(1);
                    Ok((opcode, code.cycles, false))
                },
                _ => {
                    self.PC = self.PC.wrapping_add(1);
                    Err(EmuError::UnsupportedAddressingMode(opcode))
                },
            },
            Instructions::TYA(mode) => match mode {
                AddrMode::Implied(code) => {
                    self.A = self.Y;
                    let v = self.A;
                    self.set_zn(v);
                    self.PC = self.PC.wrapping_add(1);
                    Ok((opcode, code.cycles, false))
                },
                _ => {
                    self.PC = self.PC.wrapping_add(1);
                    Err(EmuError::UnsupportedAddressingMode(opcode))
                },
            },
            Instructions::CLC(mode) => match mode {
                AddrMode::Implied(code) => {
                    self.status_flags.C = 0;
                    self.PC = self.PC.wrapping_add(1);
                    Ok((opcode, code.cycles, false))
                },
                _ => {
                    self.PC = self.PC.wrapping_add(1);
                    Err(EmuError::UnsupportedAddressingMode(opcode))
                },
            },
            Instructions::CLD(mode) => match mode {
                AddrMode::Implied(code) => {
                    self.status_flags.D = 0;
                    self.PC = self.PC.wrapping_add(1);
                    Ok((opcode, code.cycles, false))
                },
                _ => {
                    self.PC = self.PC.wrapping_add(1);
                    Err(EmuError::UnsupportedAddressingMode(opcode))
                },
            },
            Instructions::CLI(mode) => match mode {
                AddrMode::Implied(code) => {
                    self.status_flags.I = 0;
                    self.PC = self.PC.wrapping_add(1);
                    Ok((opcode, code.cycles, false))
                },
                _ => {
                    self.PC = self.PC.wrapping_add(1);
                    Err(EmuError::UnsupportedAddressingMode(opcode))
                },
            },
            Instructions::CLV(mode) => match mode {
                AddrMode::Implied(code) => {
                    self.status_flags.V = 0;
                    self.PC = self.PC.wrapping_add(1);
                    Ok((opcode, code.cycles, false))
                },
                _ => {
                    self.PC = self.PC.wrapping_add(1);
                    Err(EmuError::UnsupportedAddressingMode(opcode))
                },
            },
            Instructions::SEC(mode) => match mode {
                AddrMode::Implied(code) => {
                    self.status_flags.C = 1;
                    self.PC = self.PC.wrapping_add(1);
                    Ok((opcode, code.cycles, false))
                },
                _ => {
                    self.PC = self.PC.wrapping_add(1);
                    Err(EmuError::UnsupportedAddressingMode(opcode))
                },
            },
            Instructions::SED(mode) => match mode {
                AddrMode::Implied(code) => {
                    self.status_flags.D = 1;
                    self.PC = self.PC.wrapping_add(1);
                    Ok((opcode, code.cycles, false))
                },
                _ => {
                    self.PC = self.PC.wrapping_add(1);
                    Err(EmuError::UnsupportedAddressingMode(opcode))
                },
            },
            Instructions::SEI(mode) => match mode {
                AddrMode::Implied(code) => {
                    self.status_flags.I = 1;
                    self.PC = self.PC.wrapping_add(1);
                    Ok((opcode, code.cycles, false))
                },
                _ => {
                    self.PC = self.PC.wrapping_add(1);
                    Err(EmuError::UnsupportedAddressingMode(opcode))
                },
            },
            Instructions::BRK(mode) => match mode {
                AddrMode::Implied(code) => {
                    self.status_flags.I = 1;
                    let ret = self.PC.wrapping_add(3);
                    // the stack traffic accounts for three of BRK's cycles
                    let mut stack_cycles: u32 = 3;
                    self.push_word_to_stack(&mut stack_cycles, mem, ret);
                    let status = self.status_flags.get_ps();
                    self.push_byte_to_stack(&mut stack_cycles, mem, status);
                    self.PC = word_at(mem, 0xFFFE);
                    self.status_flags.B = 1;
                    Ok((opcode, code.cycles, true))
                },
                _ => {
                    self.PC = self.PC.wrapping_add(1);
                    Err(EmuError::UnsupportedAddressingMode(opcode))
                },
            },
            _ => {
                self.PC = self.PC.wrapping_add(1);
                Err(EmuError::UnsupportedAddressingMode(opcode))
            },
        }
    }

    /// Run instructions until a step halts the engine, a step fails, or
    /// the next instruction's base cycle cost exceeds the budget that is
    /// left in `cycles`. The budget is decremented by each executed
    /// step's cost; the run never starts a step it cannot pay for.
    /// Returns the ending program counter, exactly as [`spec_run_sized`]
    /// states.
    pub fn execute_sized(&mut self, cycles: &mut u32, mem: &mut MEM) -> (r: Result<u16, EmuError>)
        requires
            old(self).wf(),
            old(mem).wf(),
        ensures
            final(self).wf(),
            final(mem).wf(),
            final(self).step == old(self).step,
            final(self).messenger == old(self).messenger,
            ({
                let out = spec_run_sized(old(self).regs(), old(mem)@, *old(cycles));
                &&& final(self).regs() == out.0
                &&& final(mem)@ == out.1
                &&& *final(cycles) == out.2
                &&& match out.3 {
                    None => r == Ok::<u16, EmuError>(out.0.pc),
                    Some(e) => r == Err::<u16, EmuError>(e),
                }
            }),
    {
        loop
            invariant
                self.wf(),
                mem.wf(),
                self.step == old(self).step,
                self.messenger == old(self).messenger,
                spec_run_sized(old(self).regs(), old(mem)@, *old(cycles)) == spec_run_sized(
                    self.regs(),
                    mem@,
                    *cycles,
                ),
            decreases *cycles,
        {
            let opcode = mem.read(self.PC as usize);
            let ins = match Instructions::resolve(opcode) {
                Ok(i) => i,
                Err(e) => {
                    self.PC = self.PC.wrapping_add(1);
                    return Err(e);
                },
            };
            let cost = ins.mode().code().cycles;
            if cost > *cycles {
                return Ok(self.PC);
            }
            let ghost rp = self.regs();
            let ghost mp = mem@;
            match self.execute_instruction(mem) {
                Err(e) => {
                    return Err(e);
                },
                Ok((_, consumed, halted)) => {
                    proof {
                        lemma_step_cycles(rp, mp);
                    }
                    *cycles = *cycles - consumed;
                    if halted {
                        return Ok(self.PC);
                    }
                },
            }
        }
    }

    /// Run instructions until a step halts the engine or fails,
    /// accumulating the consumed cycles and tracking the program counter
    /// the terminal step ran from. Returns that cycle total and program
    /// counter: there is a trace of successful, non-halting steps from
    /// the starting state to a state whose next step halts, as
    /// [`spec_reaches`] and [`spec_step`] state. A failing run returns
    /// the step's error instead, with PC advanced past the failing
    /// opcode byte; a run whose cycle total would no longer fit the
    /// counter stops where it is with
    /// [`EmuError::CycleAccountingOverflow`].
    pub fn execute_continuous(&mut self, mem: &mut MEM) -> (r: Result<(usize, u16), EmuError>)
        requires
            old(self).wf(),
            old(mem).wf(),
            old(self).step == Step::Supervised ==> forall|op: u8, c: u32|
                call_requires(old(self).messenger.messenger, (MessageType::LineExecuted(op, c),)),
        ensures
            final(self).wf(),
            final(mem).wf(),
            final(self).step == old(self).step,
            final(self).messenger == old(self).messenger,
            match r {
                Ok(pair) => exists|k: nat, rp: Regs, mp: Seq<u8>, cp: nat|
                    spec_reaches(old(self).regs(), old(mem)@, rp, mp, cp, k) && match spec_step(
                        rp,
                        mp,
                    ) {
                        Ok(res) => res.4 && final(self).regs() == res.0 && final(mem)@ == res.1
                            && pair.1 == rp.pc && pair.0 as nat == if cp + res.3 > usize::MAX {
                            usize::MAX as nat
                        } else {
                            (cp + res.3) as nat
                        },
                        Err(_) => false,
                    },
                Err(e) => exists|k: nat, rp: Regs, mp: Seq<u8>, cp: nat|
                    spec_reaches(old(self).regs(), old(mem)@, rp, mp, cp, k) && ((spec_step(rp, mp)
                        == Err::<(Regs, Seq<u8>, u8, u32, bool), EmuError>(e) && final(self).regs()
                        == (Regs { pc: wrap_add16(rp.pc, 1), ..rp }) && final(mem)@ == mp) || (e
                        == EmuError::CycleAccountingOverflow && cp >= usize::MAX
                        && final(self).regs() == rp && final(mem)@ == mp)),
            },
    {
        let mut consumed_cycles: usize = 0;
        let mut last_pc = self.PC;
        let ghost mut k: nat = 0nat;
        let ghost mut cyc_exact: nat = 0nat;
        loop
            invariant
                self.wf(),
                mem.wf(),
                self.step == old(self).step,
                self.messenger == old(self).messenger,
                spec_reaches(old(self).regs(), old(mem)@, self.regs(), mem@, cyc_exact, k),
                last_pc == self.PC,
                consumed_cycles as nat == if cyc_exact > usize::MAX {
                    usize::MAX as nat
                } else {
                    cyc_exact
                },
                old(self).step == Step::Supervised ==> forall|op: u8, c: u32|
                    call_requires(
                        old(self).messenger.messenger,
                        (MessageType::LineExecuted(op, c),),
                    ),
            decreases usize::MAX - consumed_cycles,
        {
            if consumed_cycles == usize::MAX {
                return Err(EmuError::CycleAccountingOverflow);
            }
            let ghost rp = self.regs();
            let ghost mp = mem@;
            match self.execute_instruction(mem) {
                Err(e) => {
                    return Err(e);
                },
                Ok((instruction, consumed, complete)) => {
                    consumed_cycles = consumed_cycles.saturating_add(consumed as usize);
                    self.emit_debugger(MessageType::LineExecuted(instruction, consumed));
                    if complete {
                        return Ok((consumed_cycles, last_pc));
                    }
                    last_pc = self.PC;
                    proof {
                        let res = spec_step(rp, mp)->Ok_0;
                        lemma_step_cycles(rp, mp);
                        lemma_reaches_snoc(
                            old(self).regs(),
                            old(mem)@,
                            rp,
                            mp,
                            cyc_exact,
                            k,
                            res,
                        );
                        cyc_exact = (cyc_exact + res.3) as nat;
                        k = (k + 1) as nat;
                    }
                },
            }
        }
    }

    /// Push a 16-bit word: the high byte first at SP, the low byte below
    /// it, decrementing SP twice with wraparound and charging two cycles.
    pub fn push_word_to_stack(&mut self, cycles: &mut u32, mem: &mut MEM, value: u16)
        requires
            old(mem).wf(),
            *old(cycles) >= 2,
        ensures
            *final(self) == (CPU { SP: wrap_sub8(old(self).SP, 2), ..*old(self) }),
            final(mem)@ == old(mem)@.update(stack_addr(old(self).SP), (value / 256) as u8).update(
                stack_addr(wrap_sub8(old(self).SP, 1)),
                (value % 256) as u8,
            ),
            *final(cycles) == *old(cycles) - 2,
    {
        self.push_byte_to_stack(cycles, mem, (value / 256) as u8);
        self.push_byte_to_stack(cycles, mem, (value % 256) as u8);
    }
}

} // verus!
