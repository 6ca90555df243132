//! What each instruction does, as functions on the machine's state.
//!
//! Every instruction has one function here that gives the state after it
//! from the state before it and the instruction's four bytes. `after` picks
//! among them by the opcode; `fault_of` tells on which instructions the
//! machine stops.

use vstd::prelude::*;
use crate::alu::{
    add_flags, add_value, div_flags, div_value, mod_value, mul_flags, mul_value, neg_value,
    not_value, rem_value, sar_value, shift_count, shl_value, shr_value, sub_flags, sub_value,
    with_zn,
};
use crate::flags::cond_holds;
use crate::graphics::{palette_at, GPU};
use crate::instruction::{
    hhll_of, imm_of, n_of, opcode_byte, rx_of, ry_of, rz_of, Instruction,
};
use crate::opcode::{opcode_of, Opcode};
use crate::state::CpuState;
use crate::word::{signed, unsigned};

verus! {

/// Why the machine stops on an instruction.
#[derive(Clone, Copy, Debug, PartialEq, Eq, Structural)]
pub enum Fault {
    /// The opcode names no instruction.
    InvalidCommand,
    /// A conditional jump or call names condition `0xF`.
    InvalidCondition,
    /// The waveform index is above 3.
    InvalidWaveType,
    /// The divisor is zero.
    DivisionByZero,
}

/// The message that reports a fault.
pub open spec fn fault_message(f: Fault) -> Seq<char> {
    match f {
        Fault::InvalidCommand => "Invalid command"@,
        Fault::InvalidCondition => "Invalid condition"@,
        Fault::InvalidWaveType => "Invalid wave type index"@,
        Fault::DivisionByZero => "Division by zero"@,
    }
}

/// `NOP`. Nothing changes.
pub open spec fn after_nop(s: CpuState, i: Instruction) -> CpuState {
    s
}

/// `CLS`. The screen is cleared to index 0 and the background colour set to 0.
pub open spec fn after_cls(s: CpuState, i: Instruction) -> CpuState {
    s.cleared()
}

/// `VBLNK`. Unless the vblank latch is set, the program counter steps back by
/// 4, so that the instruction runs again until a frame boundary has set the
/// latch.
pub open spec fn after_vblnk(s: CpuState, i: Instruction) -> CpuState {
    s.waited()
}

/// `BGC n`. The background colour becomes the low nibble of byte 2.
pub open spec fn after_bgc_n(s: CpuState, i: Instruction) -> CpuState {
    s.with_graphics(GPU { bg: n_of(i) as u8, ..s.graphics })
}

/// `SPR HHLL`. The sprite width becomes byte 2 and the sprite height byte 3.
pub open spec fn after_spr_hhll(s: CpuState, i: Instruction) -> CpuState {
    s.with_graphics(GPU { spritew: i[2], spriteh: i[3], ..s.graphics })
}

/// `DRW rx, ry, HHLL`. The sprite at address HHLL is drawn at `(R[x], R[y])`; C
/// reports a collision.
pub open spec fn after_drw_rx_ry_hhll(s: CpuState, i: Instruction) -> CpuState {
    let a = s.registers[rx_of(i)];
    let b = s.registers[ry_of(i)];
    s.drawn(a, b, hhll_of(i))
}

/// `DRW rx, ry, rz`. The sprite at the address in `R[z]` is drawn at `(R[x],
/// R[y])`; C reports a collision.
pub open spec fn after_drw_rx_ry_rz(s: CpuState, i: Instruction) -> CpuState {
    let a = s.registers[rx_of(i)];
    let b = s.registers[ry_of(i)];
    s.drawn(a, b, unsigned(s.registers[rz_of(i)]) as u16)
}

/// `RND rx, HHLL`. `R[x]` becomes the number drawn, which lies in `0..=HHLL`.
pub open spec fn after_rnd_rx_hhll(s: CpuState, i: Instruction, random: u16) -> CpuState {
    s.set_reg(rx_of(i), signed(random as int))
}

/// `FLIP`. Vertical mirroring becomes bit 0 of byte 3 and horizontal mirroring
/// bit 1: bits 8 and 9 of the immediate.
pub open spec fn after_flip(s: CpuState, i: Instruction) -> CpuState {
    s.with_graphics(
        GPU { vflip: i[3] as int % 2 == 1, hflip: (i[3] as int / 2) % 2 == 1, ..s.graphics },
    )
}

/// `SND0`. The tone generator is stopped.
pub open spec fn after_snd0(s: CpuState, i: Instruction) -> CpuState {
    s.with_audio(s.audio.after_clear())
}

/// `SND1 HHLL`. A fixed tone of 500 Hz plays for HHLL milliseconds.
pub open spec fn after_snd1_hhll(s: CpuState, i: Instruction) -> CpuState {
    s.with_audio(s.audio.after_play_sound(500, hhll_of(i)))
}

/// `SND2 HHLL`. A fixed tone of 1000 Hz plays for HHLL milliseconds.
pub open spec fn after_snd2_hhll(s: CpuState, i: Instruction) -> CpuState {
    s.with_audio(s.audio.after_play_sound(1000, hhll_of(i)))
}

/// `SND3 HHLL`. A fixed tone of 1500 Hz plays for HHLL milliseconds.
pub open spec fn after_snd3_hhll(s: CpuState, i: Instruction) -> CpuState {
    s.with_audio(s.audio.after_play_sound(1500, hhll_of(i)))
}

/// `SNP rx, HHLL`. The tone whose frequency is the word at the address in
/// `R[x]` plays for HHLL milliseconds, shaped by the current envelope.
pub open spec fn after_snp_rx_hhll(s: CpuState, i: Instruction) -> CpuState {
    let a = s.registers[rx_of(i)];
    s.with_audio(s.audio.after_play_custom_sound(s.word_at(unsigned(a)), hhll_of(i)))
}

/// `SNG AD, VTSR`. The envelope and waveform are set from six nibbles: attack
/// and decay from byte 1, sustain and release from byte 2, volume and waveform
/// from byte 3, the first of each pair in the high nibble. A waveform index
/// above 3 is an error.
pub open spec fn after_sng_ad_vtsr(s: CpuState, i: Instruction) -> CpuState {
    s.with_audio(
        s.audio.after_set_params(
            (i[1] / 16) as u8,
            (i[1] % 16) as u8,
            (i[2] / 16) as u8,
            (i[2] % 16) as u8,
            (i[3] / 16) as u8,
            (i[3] % 16) as u8,
        ),
    )
}

/// `JMP HHLL`. The program counter becomes HHLL.
pub open spec fn after_jmp_hhll(s: CpuState, i: Instruction) -> CpuState {
    s.with_pc(hhll_of(i))
}

/// `JMC HHLL`. If C is set, the program counter becomes HHLL.
pub open spec fn after_jmc_hhll(s: CpuState, i: Instruction) -> CpuState {
    if s.flags.C {
        s.with_pc(hhll_of(i))
    } else {
        s
    }
}

/// `Jx HHLL`. If the condition in the low nibble of byte 1 holds, the program
/// counter becomes HHLL. Condition `0xF` is an error and changes nothing.
pub open spec fn after_jx_hhll(s: CpuState, i: Instruction) -> CpuState {
    if rx_of(i) < 15 && cond_holds(s.flags, rx_of(i)) {
        s.with_pc(hhll_of(i))
    } else {
        s
    }
}

/// `JME rx, ry, HHLL`. If `R[x]` equals `R[y]`, the program counter becomes
/// HHLL.
pub open spec fn after_jme_rx_ry_hhll(s: CpuState, i: Instruction) -> CpuState {
    let a = s.registers[rx_of(i)];
    let b = s.registers[ry_of(i)];
    if a == b {
        s.with_pc(hhll_of(i))
    } else {
        s
    }
}

/// `CALL HHLL`. The program counter is pushed and becomes HHLL.
pub open spec fn after_call_hhll(s: CpuState, i: Instruction) -> CpuState {
    s.called(hhll_of(i))
}

/// `RET`. The program counter is popped.
pub open spec fn after_ret(s: CpuState, i: Instruction) -> CpuState {
    s.returned()
}

/// `JMP rx`. The program counter becomes `R[x]`.
pub open spec fn after_jmp_rx(s: CpuState, i: Instruction) -> CpuState {
    let a = s.registers[rx_of(i)];
    s.with_pc(unsigned(a) as u16)
}

/// `Cx HHLL`. If the condition in the low nibble of byte 1 holds, the program
/// counter is pushed and becomes HHLL. Condition `0xF` is an error and changes
/// nothing.
pub open spec fn after_cx_hhll(s: CpuState, i: Instruction) -> CpuState {
    if rx_of(i) < 15 && cond_holds(s.flags, rx_of(i)) {
        s.called(hhll_of(i))
    } else {
        s
    }
}

/// `CALL rx`. The program counter is pushed and becomes `R[x]`.
pub open spec fn after_call_rx(s: CpuState, i: Instruction) -> CpuState {
    let a = s.registers[rx_of(i)];
    s.called(unsigned(a) as u16)
}

/// `LDI rx, HHLL`. `R[x]` becomes the immediate.
pub open spec fn after_ldi_rx_hhll(s: CpuState, i: Instruction) -> CpuState {
    s.set_reg(rx_of(i), imm_of(i))
}

/// `LDI SP, HHLL`. The stack pointer becomes HHLL.
pub open spec fn after_ldi_sp_hhll(s: CpuState, i: Instruction) -> CpuState {
    s.with_sp(hhll_of(i))
}

/// `LDM rx, HHLL`. `R[x]` becomes the word at address HHLL.
pub open spec fn after_ldm_rx_hhll(s: CpuState, i: Instruction) -> CpuState {
    s.set_reg(rx_of(i), signed(s.word_at(hhll_of(i) as int) as int))
}

/// `LDM rx, ry`. `R[x]` becomes the word at the address in `R[y]`.
pub open spec fn after_ldm_rx_ry(s: CpuState, i: Instruction) -> CpuState {
    let b = s.registers[ry_of(i)];
    s.set_reg(rx_of(i), signed(s.word_at(unsigned(b)) as int))
}

/// `MOV rx, ry`. `R[x]` becomes `R[y]`.
pub open spec fn after_mov_rx_ry(s: CpuState, i: Instruction) -> CpuState {
    let b = s.registers[ry_of(i)];
    s.set_reg(rx_of(i), b)
}

/// `STM rx, HHLL`. `R[x]` is stored at address HHLL.
pub open spec fn after_stm_rx_hhll(s: CpuState, i: Instruction) -> CpuState {
    let a = s.registers[rx_of(i)];
    s.stored(hhll_of(i) as int, unsigned(a) as u16)
}

/// `STM rx, ry`. `R[x]` is stored at the address in `R[y]`.
pub open spec fn after_stm_rx_ry(s: CpuState, i: Instruction) -> CpuState {
    let a = s.registers[rx_of(i)];
    let b = s.registers[ry_of(i)];
    s.stored(unsigned(b), unsigned(a) as u16)
}

/// `ADDI rx, HHLL`. `R[x]` becomes `R[x]` plus the immediate; C, Z, O and N are
/// set.
pub open spec fn after_addi_rx_hhll(s: CpuState, i: Instruction) -> CpuState {
    let a = s.registers[rx_of(i)];
    let b = imm_of(i);
    s.arith(rx_of(i), add_value(a, b), add_flags(a, b))
}

/// `ADD rx, ry`. `R[x]` becomes `R[x]` plus `R[y]`; C, Z, O and N are set.
pub open spec fn after_add_rx_ry(s: CpuState, i: Instruction) -> CpuState {
    let a = s.registers[rx_of(i)];
    let b = s.registers[ry_of(i)];
    s.arith(rx_of(i), add_value(a, b), add_flags(a, b))
}

/// `ADD rx, ry, rz`. `R[z]` becomes `R[x]` plus `R[y]`; C, Z, O and N are set.
pub open spec fn after_add_rx_ry_rz(s: CpuState, i: Instruction) -> CpuState {
    let a = s.registers[rx_of(i)];
    let b = s.registers[ry_of(i)];
    s.arith(rz_of(i), add_value(a, b), add_flags(a, b))
}

/// `SUBI rx, HHLL`. `R[x]` becomes `R[x]` minus the immediate; C, Z, O and N
/// are set.
pub open spec fn after_subi_rx_hhll(s: CpuState, i: Instruction) -> CpuState {
    let a = s.registers[rx_of(i)];
    let b = imm_of(i);
    s.arith(rx_of(i), sub_value(a, b), sub_flags(a, b))
}

/// `SUB rx, ry`. `R[x]` becomes `R[x]` minus `R[y]`; C, Z, O and N are set.
pub open spec fn after_sub_rx_ry(s: CpuState, i: Instruction) -> CpuState {
    let a = s.registers[rx_of(i)];
    let b = s.registers[ry_of(i)];
    s.arith(rx_of(i), sub_value(a, b), sub_flags(a, b))
}

/// `SUB rx, ry, rz`. `R[z]` becomes `R[x]` minus `R[y]`; C, Z, O and N are set.
pub open spec fn after_sub_rx_ry_rz(s: CpuState, i: Instruction) -> CpuState {
    let a = s.registers[rx_of(i)];
    let b = s.registers[ry_of(i)];
    s.arith(rz_of(i), sub_value(a, b), sub_flags(a, b))
}

/// `CMPI rx, HHLL`. The flags become those of `R[x]` minus the immediate; no
/// register changes.
pub open spec fn after_cmpi_rx_hhll(s: CpuState, i: Instruction) -> CpuState {
    let a = s.registers[rx_of(i)];
    let b = imm_of(i);
    s.with_flags(sub_flags(a, b))
}

/// `CMP rx, ry`. The flags become those of `R[x]` minus `R[y]`; no register
/// changes.
pub open spec fn after_cmp_rx_ry(s: CpuState, i: Instruction) -> CpuState {
    let a = s.registers[rx_of(i)];
    let b = s.registers[ry_of(i)];
    s.with_flags(sub_flags(a, b))
}

/// `ANDI rx, HHLL`. `R[x]` becomes `R[x]` AND the immediate; Z and N are set.
pub open spec fn after_andi_rx_hhll(s: CpuState, i: Instruction) -> CpuState {
    let a = s.registers[rx_of(i)];
    let b = imm_of(i);
    s.arith(rx_of(i), a & b, with_zn(s.flags, a & b))
}

/// `AND rx, ry`. `R[x]` becomes `R[x]` AND `R[y]`; Z and N are set.
pub open spec fn after_and_rx_ry(s: CpuState, i: Instruction) -> CpuState {
    let a = s.registers[rx_of(i)];
    let b = s.registers[ry_of(i)];
    s.arith(rx_of(i), a & b, with_zn(s.flags, a & b))
}

/// `AND rx, ry, rz`. `R[z]` becomes `R[x]` AND `R[y]`; Z and N are set.
pub open spec fn after_and_rx_ry_rz(s: CpuState, i: Instruction) -> CpuState {
    let a = s.registers[rx_of(i)];
    let b = s.registers[ry_of(i)];
    s.arith(rz_of(i), a & b, with_zn(s.flags, a & b))
}

/// `TSTI rx, HHLL`. Z and N become those of `R[x]` AND the immediate; no
/// register changes.
pub open spec fn after_tsti_rx_hhll(s: CpuState, i: Instruction) -> CpuState {
    let a = s.registers[rx_of(i)];
    let b = imm_of(i);
    s.with_flags(with_zn(s.flags, a & b))
}

/// `TST rx, ry`. Z and N become those of `R[x]` AND `R[y]`; no register
/// changes.
pub open spec fn after_tst_rx_ry(s: CpuState, i: Instruction) -> CpuState {
    let a = s.registers[rx_of(i)];
    let b = s.registers[ry_of(i)];
    s.with_flags(with_zn(s.flags, a & b))
}

/// `ORI rx, HHLL`. `R[x]` becomes `R[x]` OR the immediate; Z and N are set.
pub open spec fn after_ori_rx_hhll(s: CpuState, i: Instruction) -> CpuState {
    let a = s.registers[rx_of(i)];
    let b = imm_of(i);
    s.arith(rx_of(i), a | b, with_zn(s.flags, a | b))
}

/// `OR rx, ry`. `R[x]` becomes `R[x]` OR `R[y]`; Z and N are set.
pub open spec fn after_or_rx_ry(s: CpuState, i: Instruction) -> CpuState {
    let a = s.registers[rx_of(i)];
    let b = s.registers[ry_of(i)];
    s.arith(rx_of(i), a | b, with_zn(s.flags, a | b))
}

/// `OR rx, ry, rz`. `R[z]` becomes `R[x]` OR `R[y]`; Z and N are set.
pub open spec fn after_or_rx_ry_rz(s: CpuState, i: Instruction) -> CpuState {
    let a = s.registers[rx_of(i)];
    let b = s.registers[ry_of(i)];
    s.arith(rz_of(i), a | b, with_zn(s.flags, a | b))
}

/// `XORI rx, HHLL`. `R[x]` becomes `R[x]` XOR the immediate; Z and N are set.
pub open spec fn after_xori_rx_hhll(s: CpuState, i: Instruction) -> CpuState {
    let a = s.registers[rx_of(i)];
    let b = imm_of(i);
    s.arith(rx_of(i), a ^ b, with_zn(s.flags, a ^ b))
}

/// `XOR rx, ry`. `R[x]` becomes `R[x]` XOR `R[y]`; Z and N are set.
pub open spec fn after_xor_rx_ry(s: CpuState, i: Instruction) -> CpuState {
    let a = s.registers[rx_of(i)];
    let b = s.registers[ry_of(i)];
    s.arith(rx_of(i), a ^ b, with_zn(s.flags, a ^ b))
}

/// `XOR rx, ry, rz`. `R[z]` becomes `R[x]` XOR `R[y]`; Z and N are set.
pub open spec fn after_xor_rx_ry_rz(s: CpuState, i: Instruction) -> CpuState {
    let a = s.registers[rx_of(i)];
    let b = s.registers[ry_of(i)];
    s.arith(rz_of(i), a ^ b, with_zn(s.flags, a ^ b))
}

/// `MULI rx, HHLL`. `R[x]` becomes `R[x]` times the immediate; C, Z and N are
/// set.
pub open spec fn after_muli_rx_hhll(s: CpuState, i: Instruction) -> CpuState {
    let a = s.registers[rx_of(i)];
    let b = imm_of(i);
    s.arith(rx_of(i), mul_value(a, b), mul_flags(s.flags, a, b))
}

/// `MUL rx, ry`. `R[x]` becomes `R[x]` times `R[y]`; C, Z and N are set.
pub open spec fn after_mul_rx_ry(s: CpuState, i: Instruction) -> CpuState {
    let a = s.registers[rx_of(i)];
    let b = s.registers[ry_of(i)];
    s.arith(rx_of(i), mul_value(a, b), mul_flags(s.flags, a, b))
}

/// `MUL rx, ry, rz`. `R[z]` becomes `R[x]` times `R[y]`; C, Z and N are set.
pub open spec fn after_mul_rx_ry_rz(s: CpuState, i: Instruction) -> CpuState {
    let a = s.registers[rx_of(i)];
    let b = s.registers[ry_of(i)];
    s.arith(rz_of(i), mul_value(a, b), mul_flags(s.flags, a, b))
}

/// `DIVI rx, HHLL`. `R[x]` becomes `R[x]` divided by the immediate, rounded
/// toward zero; C, Z and N are set. A zero divisor is an error and changes
/// nothing.
pub open spec fn after_divi_rx_hhll(s: CpuState, i: Instruction) -> CpuState {
    let a = s.registers[rx_of(i)];
    let b = imm_of(i);
    if b == 0 {
        s
    } else {
        s.arith(rx_of(i), div_value(a, b), div_flags(s.flags, a, b))
    }
}

/// `DIV rx, ry`. `R[x]` becomes `R[x]` divided by `R[y]`, rounded toward zero;
/// C, Z and N are set. A zero divisor is an error and changes nothing.
pub open spec fn after_div_rx_ry(s: CpuState, i: Instruction) -> CpuState {
    let a = s.registers[rx_of(i)];
    let b = s.registers[ry_of(i)];
    if b == 0 {
        s
    } else {
        s.arith(rx_of(i), div_value(a, b), div_flags(s.flags, a, b))
    }
}

/// `DIV rx, ry, rz`. `R[z]` becomes `R[x]` divided by `R[y]`, rounded toward
/// zero; C, Z and N are set. A zero divisor is an error and changes nothing.
pub open spec fn after_div_rx_ry_rz(s: CpuState, i: Instruction) -> CpuState {
    let a = s.registers[rx_of(i)];
    let b = s.registers[ry_of(i)];
    if b == 0 {
        s
    } else {
        s.arith(rz_of(i), div_value(a, b), div_flags(s.flags, a, b))
    }
}

/// `MODI rx, HHLL`. `R[x]` becomes `R[x]` modulo the immediate, with the sign
/// of the divisor; Z and N are set. A zero divisor is an error and changes
/// nothing.
pub open spec fn after_modi_rx_hhll(s: CpuState, i: Instruction) -> CpuState {
    let a = s.registers[rx_of(i)];
    let b = imm_of(i);
    if b == 0 {
        s
    } else {
        s.arith(rx_of(i), mod_value(a, b), with_zn(s.flags, mod_value(a, b)))
    }
}

/// `MOD rx, ry`. `R[x]` becomes `R[x]` modulo `R[y]`, with the sign of the
/// divisor; Z and N are set. A zero divisor is an error and changes nothing.
pub open spec fn after_mod_rx_ry(s: CpuState, i: Instruction) -> CpuState {
    let a = s.registers[rx_of(i)];
    let b = s.registers[ry_of(i)];
    if b == 0 {
        s
    } else {
        s.arith(rx_of(i), mod_value(a, b), with_zn(s.flags, mod_value(a, b)))
    }
}

/// `MOD rx, ry, rz`. `R[z]` becomes `R[x]` modulo `R[y]`, with the sign of the
/// divisor; Z and N are set. A zero divisor is an error and changes nothing.
pub open spec fn after_mod_rx_ry_rz(s: CpuState, i: Instruction) -> CpuState {
    let a = s.registers[rx_of(i)];
    let b = s.registers[ry_of(i)];
    if b == 0 {
        s
    } else {
        s.arith(rz_of(i), mod_value(a, b), with_zn(s.flags, mod_value(a, b)))
    }
}

/// `REMI rx, HHLL`. `R[x]` becomes the remainder of `R[x]` by the immediate,
/// with the sign of the dividend; Z and N are set. A zero divisor is an error
/// and changes nothing.
pub open spec fn after_remi_rx_hhll(s: CpuState, i: Instruction) -> CpuState {
    let a = s.registers[rx_of(i)];
    let b = imm_of(i);
    if b == 0 {
        s
    } else {
        s.arith(rx_of(i), rem_value(a, b), with_zn(s.flags, rem_value(a, b)))
    }
}

/// `REM rx, ry`. `R[x]` becomes the remainder of `R[x]` by `R[y]`, with the
/// sign of the dividend; Z and N are set. A zero divisor is an error and
/// changes nothing.
pub open spec fn after_rem_rx_ry(s: CpuState, i: Instruction) -> CpuState {
    let a = s.registers[rx_of(i)];
    let b = s.registers[ry_of(i)];
    if b == 0 {
        s
    } else {
        s.arith(rx_of(i), rem_value(a, b), with_zn(s.flags, rem_value(a, b)))
    }
}

/// `REM rx, ry, rz`. `R[z]` becomes the remainder of `R[x]` by `R[y]`, with the
/// sign of the dividend; Z and N are set. A zero divisor is an error and
/// changes nothing.
pub open spec fn after_rem_rx_ry_rz(s: CpuState, i: Instruction) -> CpuState {
    let a = s.registers[rx_of(i)];
    let b = s.registers[ry_of(i)];
    if b == 0 {
        s
    } else {
        s.arith(rz_of(i), rem_value(a, b), with_zn(s.flags, rem_value(a, b)))
    }
}

/// `SHL rx, n`. `R[x]` is shifted left, by the count in the low nibble of byte
/// 2; Z and N are set.
pub open spec fn after_shl_rx_n(s: CpuState, i: Instruction) -> CpuState {
    let a = s.registers[rx_of(i)];
    s.arith(rx_of(i), shl_value(a, n_of(i)), with_zn(s.flags, shl_value(a, n_of(i))))
}

/// `SHR rx, n`. `R[x]` is shifted right, zeros coming in, by the count in the
/// low nibble of byte 2; Z and N are set.
pub open spec fn after_shr_rx_n(s: CpuState, i: Instruction) -> CpuState {
    let a = s.registers[rx_of(i)];
    s.arith(rx_of(i), shr_value(a, n_of(i)), with_zn(s.flags, shr_value(a, n_of(i))))
}

/// `SAR rx, n`. `R[x]` is shifted right, the sign bit coming in, by the count
/// in the low nibble of byte 2; Z and N are set.
pub open spec fn after_sar_rx_n(s: CpuState, i: Instruction) -> CpuState {
    let a = s.registers[rx_of(i)];
    s.arith(rx_of(i), sar_value(a, n_of(i)), with_zn(s.flags, sar_value(a, n_of(i))))
}

/// `SHL rx, ry`. `R[x]` is shifted left, by the low four bits of `R[y]`; Z and
/// N are set.
pub open spec fn after_shl_rx_ry(s: CpuState, i: Instruction) -> CpuState {
    let a = s.registers[rx_of(i)];
    let b = s.registers[ry_of(i)];
    s.arith(rx_of(i), shl_value(a, shift_count(b)), with_zn(s.flags, shl_value(a, shift_count(b))))
}

/// `SHR rx, ry`. `R[x]` is shifted right, zeros coming in, by the low four bits
/// of `R[y]`; Z and N are set.
pub open spec fn after_shr_rx_ry(s: CpuState, i: Instruction) -> CpuState {
    let a = s.registers[rx_of(i)];
    let b = s.registers[ry_of(i)];
    s.arith(rx_of(i), shr_value(a, shift_count(b)), with_zn(s.flags, shr_value(a, shift_count(b))))
}

/// `SAR rx, ry`. `R[x]` is shifted right, the sign bit coming in, by the low
/// four bits of `R[y]`; Z and N are set.
pub open spec fn after_sar_rx_ry(s: CpuState, i: Instruction) -> CpuState {
    let a = s.registers[rx_of(i)];
    let b = s.registers[ry_of(i)];
    s.arith(rx_of(i), sar_value(a, shift_count(b)), with_zn(s.flags, sar_value(a, shift_count(b))))
}

/// `PUSH rx`. `R[x]` is pushed.
pub open spec fn after_push_rx(s: CpuState, i: Instruction) -> CpuState {
    let a = s.registers[rx_of(i)];
    s.pushed(unsigned(a) as u16)
}

/// `POP rx`. `R[x]` is popped.
pub open spec fn after_pop_rx(s: CpuState, i: Instruction) -> CpuState {
    s.popped(rx_of(i))
}

/// `PUSHALL`. All sixteen registers are pushed, register 0 first.
pub open spec fn after_pushall(s: CpuState, i: Instruction) -> CpuState {
    s.pushed_all()
}

/// `POPALL`. All sixteen registers are popped, register 15 first.
pub open spec fn after_popall(s: CpuState, i: Instruction) -> CpuState {
    s.popped_all()
}

/// `PUSHF`. The flags are pushed as one byte.
pub open spec fn after_pushf(s: CpuState, i: Instruction) -> CpuState {
    s.pushed_flags()
}

/// `POPF`. The flags are popped.
pub open spec fn after_popf(s: CpuState, i: Instruction) -> CpuState {
    s.popped_flags()
}

/// `PAL HHLL`. The palette is loaded from the 48 bytes at address HHLL.
pub open spec fn after_pal_hhll(s: CpuState, i: Instruction) -> CpuState {
    s.with_palette(palette_at(s.mem, hhll_of(i) as int))
}

/// `PAL rx`. The palette is loaded from the 48 bytes at the address in `R[x]`.
pub open spec fn after_pal_rx(s: CpuState, i: Instruction) -> CpuState {
    let a = s.registers[rx_of(i)];
    s.with_palette(palette_at(s.mem, unsigned(a)))
}

/// `NOTI rx, HHLL`. `R[x]` becomes the complement of the immediate; Z and N are
/// set.
pub open spec fn after_noti_rx_hhll(s: CpuState, i: Instruction) -> CpuState {
    let b = imm_of(i);
    s.arith(rx_of(i), not_value(b), with_zn(s.flags, not_value(b)))
}

/// `NOT rx`. `R[x]` becomes the complement of itself; Z and N are set.
pub open spec fn after_not_rx(s: CpuState, i: Instruction) -> CpuState {
    let a = s.registers[rx_of(i)];
    s.arith(rx_of(i), not_value(a), with_zn(s.flags, not_value(a)))
}

/// `NOT rx, ry`. `R[x]` becomes the complement of `R[y]`; Z and N are set.
pub open spec fn after_not_rx_ry(s: CpuState, i: Instruction) -> CpuState {
    let b = s.registers[ry_of(i)];
    s.arith(rx_of(i), not_value(b), with_zn(s.flags, not_value(b)))
}

/// `NEGI rx, HHLL`. `R[x]` becomes the negation of the immediate; Z and N are
/// set.
pub open spec fn after_negi_rx_hhll(s: CpuState, i: Instruction) -> CpuState {
    let b = imm_of(i);
    s.arith(rx_of(i), neg_value(b), with_zn(s.flags, neg_value(b)))
}

/// `NEG rx`. `R[x]` becomes the negation of itself; Z and N are set.
pub open spec fn after_neg_rx(s: CpuState, i: Instruction) -> CpuState {
    let a = s.registers[rx_of(i)];
    s.arith(rx_of(i), neg_value(a), with_zn(s.flags, neg_value(a)))
}

/// `NEG rx, ry`. `R[x]` becomes the negation of `R[y]`; Z and N are set.
pub open spec fn after_neg_rx_ry(s: CpuState, i: Instruction) -> CpuState {
    let b = s.registers[ry_of(i)];
    s.arith(rx_of(i), neg_value(b), with_zn(s.flags, neg_value(b)))
}

/// The fault that instruction `i` raises in state `s`, if it raises one.
#[verifier::opaque]
pub open spec fn fault_of(s: CpuState, i: Instruction) -> Option<Fault> {
    match opcode_of(opcode_byte(i)) {
        Opcode::Invalid => Some(Fault::InvalidCommand),
        Opcode::SngAdVtsr => if i[3] % 16 > 3 {
            Some(Fault::InvalidWaveType)
        } else {
            None
        },
        Opcode::JxHhll => if rx_of(i) == 15 {
            Some(Fault::InvalidCondition)
        } else {
            None
        },
        Opcode::CxHhll => if rx_of(i) == 15 {
            Some(Fault::InvalidCondition)
        } else {
            None
        },
        Opcode::DiviRxHhll => if imm_of(i) == 0 {
            Some(Fault::DivisionByZero)
        } else {
            None
        },
        Opcode::DivRxRy => if s.registers[ry_of(i)] == 0 {
            Some(Fault::DivisionByZero)
        } else {
            None
        },
        Opcode::DivRxRyRz => if s.registers[ry_of(i)] == 0 {
            Some(Fault::DivisionByZero)
        } else {
            None
        },
        Opcode::ModiRxHhll => if imm_of(i) == 0 {
            Some(Fault::DivisionByZero)
        } else {
            None
        },
        Opcode::ModRxRy => if s.registers[ry_of(i)] == 0 {
            Some(Fault::DivisionByZero)
        } else {
            None
        },
        Opcode::ModRxRyRz => if s.registers[ry_of(i)] == 0 {
            Some(Fault::DivisionByZero)
        } else {
            None
        },
        Opcode::RemiRxHhll => if imm_of(i) == 0 {
            Some(Fault::DivisionByZero)
        } else {
            None
        },
        Opcode::RemRxRy => if s.registers[ry_of(i)] == 0 {
            Some(Fault::DivisionByZero)
        } else {
            None
        },
        Opcode::RemRxRyRz => if s.registers[ry_of(i)] == 0 {
            Some(Fault::DivisionByZero)
        } else {
            None
        },
        _ => None,
    }
}

/// The video and sound instructions: opcodes `0x00` to `0x0E`. An opcode that names none of them changes nothing.
#[verifier::opaque]
pub open spec fn after_system(s: CpuState, i: Instruction, random: u16) -> CpuState {
    match opcode_of(opcode_byte(i)) {
        Opcode::Nop => after_nop(s, i),
        Opcode::Cls => after_cls(s, i),
        Opcode::Vblnk => after_vblnk(s, i),
        Opcode::BgcN => after_bgc_n(s, i),
        Opcode::SprHhll => after_spr_hhll(s, i),
        Opcode::DrwRxRyHhll => after_drw_rx_ry_hhll(s, i),
        Opcode::DrwRxRyRz => after_drw_rx_ry_rz(s, i),
        Opcode::RndRxHhll => after_rnd_rx_hhll(s, i, random),
        Opcode::Flip => after_flip(s, i),
        Opcode::Snd0 => after_snd0(s, i),
        Opcode::Snd1Hhll => after_snd1_hhll(s, i),
        Opcode::Snd2Hhll => after_snd2_hhll(s, i),
        Opcode::Snd3Hhll => after_snd3_hhll(s, i),
        Opcode::SnpRxHhll => after_snp_rx_hhll(s, i),
        Opcode::SngAdVtsr => after_sng_ad_vtsr(s, i),
        _ => s,
    }
}

/// None of these instructions touches the cycle counter, the vblank latch or
/// the controller bytes.
proof fn lemma_system_keeps_frame(s: CpuState, i: Instruction, random: u16)
    ensures
        after_system(s, i, random).cycles == s.cycles,
        after_system(s, i, random).vblnk == s.vblnk,
        after_system(s, i, random).controls == s.controls,
{
    reveal(after_system);
}

/// None of these instructions but `VBLNK` sets the program counter.
proof fn lemma_system_keeps_pc(s: CpuState, i: Instruction, random: u16)
    requires
        opcode_byte(i) != 0x02,
    ensures
        after_system(s, i, random).pc == s.pc,
{
    reveal(after_system);
}

/// Jumps, calls and returns: opcodes `0x10` to `0x18`. An opcode that names none of them changes nothing.
#[verifier::opaque]
pub open spec fn after_flow(s: CpuState, i: Instruction) -> CpuState {
    match opcode_of(opcode_byte(i)) {
        Opcode::JmpHhll => after_jmp_hhll(s, i),
        Opcode::JmcHhll => after_jmc_hhll(s, i),
        Opcode::JxHhll => after_jx_hhll(s, i),
        Opcode::JmeRxRyHhll => after_jme_rx_ry_hhll(s, i),
        Opcode::CallHhll => after_call_hhll(s, i),
        Opcode::Ret => after_ret(s, i),
        Opcode::JmpRx => after_jmp_rx(s, i),
        Opcode::CxHhll => after_cx_hhll(s, i),
        Opcode::CallRx => after_call_rx(s, i),
        _ => s,
    }
}

/// None of these instructions touches the cycle counter, the vblank latch or
/// the controller bytes.
proof fn lemma_flow_keeps_frame(s: CpuState, i: Instruction)
    ensures
        after_flow(s, i).cycles == s.cycles,
        after_flow(s, i).vblnk == s.vblnk,
        after_flow(s, i).controls == s.controls,
{
    reveal(after_flow);
}

/// Loads, stores, the stack and the palette: opcodes `0x20` to `0x31` and
/// `0xC0` to `0xD1`. An opcode that names none of them changes nothing.
#[verifier::opaque]
pub open spec fn after_memory(s: CpuState, i: Instruction) -> CpuState {
    match opcode_of(opcode_byte(i)) {
        Opcode::LdiRxHhll => after_ldi_rx_hhll(s, i),
        Opcode::LdiSpHhll => after_ldi_sp_hhll(s, i),
        Opcode::LdmRxHhll => after_ldm_rx_hhll(s, i),
        Opcode::LdmRxRy => after_ldm_rx_ry(s, i),
        Opcode::MovRxRy => after_mov_rx_ry(s, i),
        Opcode::StmRxHhll => after_stm_rx_hhll(s, i),
        Opcode::StmRxRy => after_stm_rx_ry(s, i),
        Opcode::PushRx => after_push_rx(s, i),
        Opcode::PopRx => after_pop_rx(s, i),
        Opcode::Pushall => after_pushall(s, i),
        Opcode::Popall => after_popall(s, i),
        Opcode::Pushf => after_pushf(s, i),
        Opcode::Popf => after_popf(s, i),
        Opcode::PalHhll => after_pal_hhll(s, i),
        Opcode::PalRx => after_pal_rx(s, i),
        _ => s,
    }
}

/// None of these instructions touches the cycle counter, the vblank latch or
/// the controller bytes.
proof fn lemma_memory_keeps_frame(s: CpuState, i: Instruction)
    ensures
        after_memory(s, i).cycles == s.cycles,
        after_memory(s, i).vblnk == s.vblnk,
        after_memory(s, i).controls == s.controls,
{
    reveal(after_memory);
}

/// None of these instructions sets the program counter.
proof fn lemma_memory_keeps_pc(s: CpuState, i: Instruction)
    ensures
        after_memory(s, i).pc == s.pc,
{
    reveal(after_memory);
}

/// Arithmetic, logic and shifts: opcodes `0x40` to `0xB5` and `0xE0` to
/// `0xE5`. An opcode that names none of them changes nothing.
#[verifier::opaque]
pub open spec fn after_arith(s: CpuState, i: Instruction) -> CpuState {
    match opcode_of(opcode_byte(i)) {
        Opcode::AddiRxHhll => after_addi_rx_hhll(s, i),
        Opcode::AddRxRy => after_add_rx_ry(s, i),
        Opcode::AddRxRyRz => after_add_rx_ry_rz(s, i),
        Opcode::SubiRxHhll => after_subi_rx_hhll(s, i),
        Opcode::SubRxRy => after_sub_rx_ry(s, i),
        Opcode::SubRxRyRz => after_sub_rx_ry_rz(s, i),
        Opcode::CmpiRxHhll => after_cmpi_rx_hhll(s, i),
        Opcode::CmpRxRy => after_cmp_rx_ry(s, i),
        Opcode::AndiRxHhll => after_andi_rx_hhll(s, i),
        Opcode::AndRxRy => after_and_rx_ry(s, i),
        Opcode::AndRxRyRz => after_and_rx_ry_rz(s, i),
        Opcode::TstiRxHhll => after_tsti_rx_hhll(s, i),
        Opcode::TstRxRy => after_tst_rx_ry(s, i),
        Opcode::OriRxHhll => after_ori_rx_hhll(s, i),
        Opcode::OrRxRy => after_or_rx_ry(s, i),
        Opcode::OrRxRyRz => after_or_rx_ry_rz(s, i),
        Opcode::XoriRxHhll => after_xori_rx_hhll(s, i),
        Opcode::XorRxRy => after_xor_rx_ry(s, i),
        Opcode::XorRxRyRz => after_xor_rx_ry_rz(s, i),
        Opcode::MuliRxHhll => after_muli_rx_hhll(s, i),
        Opcode::MulRxRy => after_mul_rx_ry(s, i),
        Opcode::MulRxRyRz => after_mul_rx_ry_rz(s, i),
        Opcode::DiviRxHhll => after_divi_rx_hhll(s, i),
        Opcode::DivRxRy => after_div_rx_ry(s, i),
        Opcode::DivRxRyRz => after_div_rx_ry_rz(s, i),
        Opcode::ModiRxHhll => after_modi_rx_hhll(s, i),
        Opcode::ModRxRy => after_mod_rx_ry(s, i),
        Opcode::ModRxRyRz => after_mod_rx_ry_rz(s, i),
        Opcode::RemiRxHhll => after_remi_rx_hhll(s, i),
        Opcode::RemRxRy => after_rem_rx_ry(s, i),
        Opcode::RemRxRyRz => after_rem_rx_ry_rz(s, i),
        Opcode::ShlRxN => after_shl_rx_n(s, i),
        Opcode::ShrRxN => after_shr_rx_n(s, i),
        Opcode::SarRxN => after_sar_rx_n(s, i),
        Opcode::ShlRxRy => after_shl_rx_ry(s, i),
        Opcode::ShrRxRy => after_shr_rx_ry(s, i),
        Opcode::SarRxRy => after_sar_rx_ry(s, i),
        Opcode::NotiRxHhll => after_noti_rx_hhll(s, i),
        Opcode::NotRx => after_not_rx(s, i),
        Opcode::NotRxRy => after_not_rx_ry(s, i),
        Opcode::NegiRxHhll => after_negi_rx_hhll(s, i),
        Opcode::NegRx => after_neg_rx(s, i),
        Opcode::NegRxRy => after_neg_rx_ry(s, i),
        _ => s,
    }
}

/// None of these instructions touches the cycle counter, the vblank latch or
/// the controller bytes.
proof fn lemma_arith_keeps_frame(s: CpuState, i: Instruction)
    ensures
        after_arith(s, i).cycles == s.cycles,
        after_arith(s, i).vblnk == s.vblnk,
        after_arith(s, i).controls == s.controls,
{
    reveal(after_arith);
}

/// None of these instructions sets the program counter.
proof fn lemma_arith_keeps_pc(s: CpuState, i: Instruction)
    ensures
        after_arith(s, i).pc == s.pc,
{
    reveal(after_arith);
}

/// The state after instruction `i` was executed in state `s`. `random` is
/// the number that was drawn, which only `RND` reads. An instruction that
/// faults leaves the state as it was, but for `SNG`, which has stored its
/// five envelope indices by then.
pub open spec fn after(s: CpuState, i: Instruction, random: u16) -> CpuState {
    let b = opcode_byte(i);
    if b < 0x10 {
        after_system(s, i, random)
    } else if b < 0x20 {
        after_flow(s, i)
    } else if b < 0x40 || 0xC0 <= b < 0xE0 {
        after_memory(s, i)
    } else {
        after_arith(s, i)
    }
}

/// Whether an instruction can set the program counter: `VBLNK`, which steps
/// back while it waits, and the jumps, calls and returns.
pub open spec fn sets_pc(i: Instruction) -> bool {
    opcode_byte(i) == 0x02 || 0x10 <= opcode_byte(i) <= 0x18
}

/// An instruction that is no jump, call, return or `VBLNK` leaves the
/// program counter as it was.
pub proof fn lemma_after_keeps_pc(s: CpuState, i: Instruction, random: u16)
    requires
        !sets_pc(i),
    ensures
        after(s, i, random).pc == s.pc,
{
    if opcode_byte(i) < 0x10 {
        lemma_system_keeps_pc(s, i, random);
    } else if opcode_byte(i) < 0x20 {
        reveal(after_flow);
    } else {
        lemma_memory_keeps_pc(s, i);
        lemma_arith_keeps_pc(s, i);
    }
}

/// No instruction touches the cycle counter, the vblank latch or the
/// controller bytes.
pub proof fn lemma_after_keeps_frame(s: CpuState, i: Instruction, random: u16)
    ensures
        after(s, i, random).cycles == s.cycles,
        after(s, i, random).vblnk == s.vblnk,
        after(s, i, random).controls == s.controls,
{
    lemma_system_keeps_frame(s, i, random);
    lemma_flow_keeps_frame(s, i);
    lemma_memory_keeps_frame(s, i);
    lemma_arith_keeps_frame(s, i);
}

/// Opcode `0x00` is `NOP`.
pub proof fn lemma_selects_nop(s: CpuState, i: Instruction, random: u16)
    requires
        opcode_byte(i) == 0x00,
    ensures
        after(s, i, random) == after_nop(s, i),
{
    reveal(after_system);
}

/// Opcode `0x01` is `CLS`.
pub proof fn lemma_selects_cls(s: CpuState, i: Instruction, random: u16)
    requires
        opcode_byte(i) == 0x01,
    ensures
        after(s, i, random) == after_cls(s, i),
{
    reveal(after_system);
}

/// Opcode `0x02` is `VBLNK`.
pub proof fn lemma_selects_vblnk(s: CpuState, i: Instruction, random: u16)
    requires
        opcode_byte(i) == 0x02,
    ensures
        after(s, i, random) == after_vblnk(s, i),
{
    reveal(after_system);
}

/// Opcode `0x03` is `BGC n`.
pub proof fn lemma_selects_bgc_n(s: CpuState, i: Instruction, random: u16)
    requires
        opcode_byte(i) == 0x03,
    ensures
        after(s, i, random) == after_bgc_n(s, i),
{
    reveal(after_system);
}

/// Opcode `0x04` is `SPR HHLL`.
pub proof fn lemma_selects_spr_hhll(s: CpuState, i: Instruction, random: u16)
    requires
        opcode_byte(i) == 0x04,
    ensures
        after(s, i, random) == after_spr_hhll(s, i),
{
    reveal(after_system);
}

/// Opcode `0x05` is `DRW rx, ry, HHLL`.
pub proof fn lemma_selects_drw_rx_ry_hhll(s: CpuState, i: Instruction, random: u16)
    requires
        opcode_byte(i) == 0x05,
    ensures
        after(s, i, random) == after_drw_rx_ry_hhll(s, i),
{
    reveal(after_system);
}

/// Opcode `0x06` is `DRW rx, ry, rz`.
pub proof fn lemma_selects_drw_rx_ry_rz(s: CpuState, i: Instruction, random: u16)
    requires
        opcode_byte(i) == 0x06,
    ensures
        after(s, i, random) == after_drw_rx_ry_rz(s, i),
{
    reveal(after_system);
}

/// Opcode `0x07` is `RND rx, HHLL`.
pub proof fn lemma_selects_rnd_rx_hhll(s: CpuState, i: Instruction, random: u16)
    requires
        opcode_byte(i) == 0x07,
    ensures
        after(s, i, random) == after_rnd_rx_hhll(s, i, random),
{
    reveal(after_system);
}

/// Opcode `0x08` is `FLIP`.
pub proof fn lemma_selects_flip(s: CpuState, i: Instruction, random: u16)
    requires
        opcode_byte(i) == 0x08,
    ensures
        after(s, i, random) == after_flip(s, i),
{
    reveal(after_system);
}

/// Opcode `0x09` is `SND0`.
pub proof fn lemma_selects_snd0(s: CpuState, i: Instruction, random: u16)
    requires
        opcode_byte(i) == 0x09,
    ensures
        after(s, i, random) == after_snd0(s, i),
{
    reveal(after_system);
}

/// Opcode `0x0A` is `SND1 HHLL`.
pub proof fn lemma_selects_snd1_hhll(s: CpuState, i: Instruction, random: u16)
    requires
        opcode_byte(i) == 0x0A,
    ensures
        after(s, i, random) == after_snd1_hhll(s, i),
{
    reveal(after_system);
}

/// Opcode `0x0B` is `SND2 HHLL`.
pub proof fn lemma_selects_snd2_hhll(s: CpuState, i: Instruction, random: u16)
    requires
        opcode_byte(i) == 0x0B,
    ensures
        after(s, i, random) == after_snd2_hhll(s, i),
{
    reveal(after_system);
}

/// Opcode `0x0C` is `SND3 HHLL`.
pub proof fn lemma_selects_snd3_hhll(s: CpuState, i: Instruction, random: u16)
    requires
        opcode_byte(i) == 0x0C,
    ensures
        after(s, i, random) == after_snd3_hhll(s, i),
{
    reveal(after_system);
}

/// Opcode `0x0D` is `SNP rx, HHLL`.
pub proof fn lemma_selects_snp_rx_hhll(s: CpuState, i: Instruction, random: u16)
    requires
        opcode_byte(i) == 0x0D,
    ensures
        after(s, i, random) == after_snp_rx_hhll(s, i),
{
    reveal(after_system);
}

/// Opcode `0x0E` is `SNG AD, VTSR`.
pub proof fn lemma_selects_sng_ad_vtsr(s: CpuState, i: Instruction, random: u16)
    requires
        opcode_byte(i) == 0x0E,
    ensures
        after(s, i, random) == after_sng_ad_vtsr(s, i),
{
    reveal(after_system);
}

/// Opcode `0x10` is `JMP HHLL`.
pub proof fn lemma_selects_jmp_hhll(s: CpuState, i: Instruction, random: u16)
    requires
        opcode_byte(i) == 0x10,
    ensures
        after(s, i, random) == after_jmp_hhll(s, i),
{
    reveal(after_flow);
}

/// Opcode `0x11` is `JMC HHLL`.
pub proof fn lemma_selects_jmc_hhll(s: CpuState, i: Instruction, random: u16)
    requires
        opcode_byte(i) == 0x11,
    ensures
        after(s, i, random) == after_jmc_hhll(s, i),
{
    reveal(after_flow);
}

/// Opcode `0x12` is `Jx HHLL`.
pub proof fn lemma_selects_jx_hhll(s: CpuState, i: Instruction, random: u16)
    requires
        opcode_byte(i) == 0x12,
    ensures
        after(s, i, random) == after_jx_hhll(s, i),
{
    reveal(after_flow);
}

/// Opcode `0x13` is `JME rx, ry, HHLL`.
pub proof fn lemma_selects_jme_rx_ry_hhll(s: CpuState, i: Instruction, random: u16)
    requires
        opcode_byte(i) == 0x13,
    ensures
        after(s, i, random) == after_jme_rx_ry_hhll(s, i),
{
    reveal(after_flow);
}

/// Opcode `0x14` is `CALL HHLL`.
pub proof fn lemma_selects_call_hhll(s: CpuState, i: Instruction, random: u16)
    requires
        opcode_byte(i) == 0x14,
    ensures
        after(s, i, random) == after_call_hhll(s, i),
{
    reveal(after_flow);
}

/// Opcode `0x15` is `RET`.
pub proof fn lemma_selects_ret(s: CpuState, i: Instruction, random: u16)
    requires
        opcode_byte(i) == 0x15,
    ensures
        after(s, i, random) == after_ret(s, i),
{
    reveal(after_flow);
}

/// Opcode `0x16` is `JMP rx`.
pub proof fn lemma_selects_jmp_rx(s: CpuState, i: Instruction, random: u16)
    requires
        opcode_byte(i) == 0x16,
    ensures
        after(s, i, random) == after_jmp_rx(s, i),
{
    reveal(after_flow);
}

/// Opcode `0x17` is `Cx HHLL`.
pub proof fn lemma_selects_cx_hhll(s: CpuState, i: Instruction, random: u16)
    requires
        opcode_byte(i) == 0x17,
    ensures
        after(s, i, random) == after_cx_hhll(s, i),
{
    reveal(after_flow);
}

/// Opcode `0x18` is `CALL rx`.
pub proof fn lemma_selects_call_rx(s: CpuState, i: Instruction, random: u16)
    requires
        opcode_byte(i) == 0x18,
    ensures
        after(s, i, random) == after_call_rx(s, i),
{
    reveal(after_flow);
}

/// Opcode `0x20` is `LDI rx, HHLL`.
pub proof fn lemma_selects_ldi_rx_hhll(s: CpuState, i: Instruction, random: u16)
    requires
        opcode_byte(i) == 0x20,
    ensures
        after(s, i, random) == after_ldi_rx_hhll(s, i),
{
    reveal(after_memory);
}

/// Opcode `0x21` is `LDI SP, HHLL`.
pub proof fn lemma_selects_ldi_sp_hhll(s: CpuState, i: Instruction, random: u16)
    requires
        opcode_byte(i) == 0x21,
    ensures
        after(s, i, random) == after_ldi_sp_hhll(s, i),
{
    reveal(after_memory);
}

/// Opcode `0x22` is `LDM rx, HHLL`.
pub proof fn lemma_selects_ldm_rx_hhll(s: CpuState, i: Instruction, random: u16)
    requires
        opcode_byte(i) == 0x22,
    ensures
        after(s, i, random) == after_ldm_rx_hhll(s, i),
{
    reveal(after_memory);
}

/// Opcode `0x23` is `LDM rx, ry`.
pub proof fn lemma_selects_ldm_rx_ry(s: CpuState, i: Instruction, random: u16)
    requires
        opcode_byte(i) == 0x23,
    ensures
        after(s, i, random) == after_ldm_rx_ry(s, i),
{
    reveal(after_memory);
}

/// Opcode `0x24` is `MOV rx, ry`.
pub proof fn lemma_selects_mov_rx_ry(s: CpuState, i: Instruction, random: u16)
    requires
        opcode_byte(i) == 0x24,
    ensures
        after(s, i, random) == after_mov_rx_ry(s, i),
{
    reveal(after_memory);
}

/// Opcode `0x30` is `STM rx, HHLL`.
pub proof fn lemma_selects_stm_rx_hhll(s: CpuState, i: Instruction, random: u16)
    requires
        opcode_byte(i) == 0x30,
    ensures
        after(s, i, random) == after_stm_rx_hhll(s, i),
{
    reveal(after_memory);
}

/// Opcode `0x31` is `STM rx, ry`.
pub proof fn lemma_selects_stm_rx_ry(s: CpuState, i: Instruction, random: u16)
    requires
        opcode_byte(i) == 0x31,
    ensures
        after(s, i, random) == after_stm_rx_ry(s, i),
{
    reveal(after_memory);
}

/// Opcode `0xC0` is `PUSH rx`.
pub proof fn lemma_selects_push_rx(s: CpuState, i: Instruction, random: u16)
    requires
        opcode_byte(i) == 0xC0,
    ensures
        after(s, i, random) == after_push_rx(s, i),
{
    reveal(after_memory);
}

/// Opcode `0xC1` is `POP rx`.
pub proof fn lemma_selects_pop_rx(s: CpuState, i: Instruction, random: u16)
    requires
        opcode_byte(i) == 0xC1,
    ensures
        after(s, i, random) == after_pop_rx(s, i),
{
    reveal(after_memory);
}

/// Opcode `0xC2` is `PUSHALL`.
pub proof fn lemma_selects_pushall(s: CpuState, i: Instruction, random: u16)
    requires
        opcode_byte(i) == 0xC2,
    ensures
        after(s, i, random) == after_pushall(s, i),
{
    reveal(after_memory);
}

/// Opcode `0xC3` is `POPALL`.
pub proof fn lemma_selects_popall(s: CpuState, i: Instruction, random: u16)
    requires
        opcode_byte(i) == 0xC3,
    ensures
        after(s, i, random) == after_popall(s, i),
{
    reveal(after_memory);
}

/// Opcode `0xC4` is `PUSHF`.
pub proof fn lemma_selects_pushf(s: CpuState, i: Instruction, random: u16)
    requires
        opcode_byte(i) == 0xC4,
    ensures
        after(s, i, random) == after_pushf(s, i),
{
    reveal(after_memory);
}

/// Opcode `0xC5` is `POPF`.
pub proof fn lemma_selects_popf(s: CpuState, i: Instruction, random: u16)
    requires
        opcode_byte(i) == 0xC5,
    ensures
        after(s, i, random) == after_popf(s, i),
{
    reveal(after_memory);
}

/// Opcode `0xD0` is `PAL HHLL`.
pub proof fn lemma_selects_pal_hhll(s: CpuState, i: Instruction, random: u16)
    requires
        opcode_byte(i) == 0xD0,
    ensures
        after(s, i, random) == after_pal_hhll(s, i),
{
    reveal(after_memory);
}

/// Opcode `0xD1` is `PAL rx`.
pub proof fn lemma_selects_pal_rx(s: CpuState, i: Instruction, random: u16)
    requires
        opcode_byte(i) == 0xD1,
    ensures
        after(s, i, random) == after_pal_rx(s, i),
{
    reveal(after_memory);
}

/// Opcode `0x40` is `ADDI rx, HHLL`.
pub proof fn lemma_selects_addi_rx_hhll(s: CpuState, i: Instruction, random: u16)
    requires
        opcode_byte(i) == 0x40,
    ensures
        after(s, i, random) == after_addi_rx_hhll(s, i),
{
    reveal(after_arith);
}

/// Opcode `0x41` is `ADD rx, ry`.
pub proof fn lemma_selects_add_rx_ry(s: CpuState, i: Instruction, random: u16)
    requires
        opcode_byte(i) == 0x41,
    ensures
        after(s, i, random) == after_add_rx_ry(s, i),
{
    reveal(after_arith);
}

/// Opcode `0x42` is `ADD rx, ry, rz`.
pub proof fn lemma_selects_add_rx_ry_rz(s: CpuState, i: Instruction, random: u16)
    requires
        opcode_byte(i) == 0x42,
    ensures
        after(s, i, random) == after_add_rx_ry_rz(s, i),
{
    reveal(after_arith);
}

/// Opcode `0x50` is `SUBI rx, HHLL`.
pub proof fn lemma_selects_subi_rx_hhll(s: CpuState, i: Instruction, random: u16)
    requires
        opcode_byte(i) == 0x50,
    ensures
        after(s, i, random) == after_subi_rx_hhll(s, i),
{
    reveal(after_arith);
}

/// Opcode `0x51` is `SUB rx, ry`.
pub proof fn lemma_selects_sub_rx_ry(s: CpuState, i: Instruction, random: u16)
    requires
        opcode_byte(i) == 0x51,
    ensures
        after(s, i, random) == after_sub_rx_ry(s, i),
{
    reveal(after_arith);
}

/// Opcode `0x52` is `SUB rx, ry, rz`.
pub proof fn lemma_selects_sub_rx_ry_rz(s: CpuState, i: Instruction, random: u16)
    requires
        opcode_byte(i) == 0x52,
    ensures
        after(s, i, random) == after_sub_rx_ry_rz(s, i),
{
    reveal(after_arith);
}

/// Opcode `0x53` is `CMPI rx, HHLL`.
pub proof fn lemma_selects_cmpi_rx_hhll(s: CpuState, i: Instruction, random: u16)
    requires
        opcode_byte(i) == 0x53,
    ensures
        after(s, i, random) == after_cmpi_rx_hhll(s, i),
{
    reveal(after_arith);
}

/// Opcode `0x54` is `CMP rx, ry`.
pub proof fn lemma_selects_cmp_rx_ry(s: CpuState, i: Instruction, random: u16)
    requires
        opcode_byte(i) == 0x54,
    ensures
        after(s, i, random) == after_cmp_rx_ry(s, i),
{
    reveal(after_arith);
}

/// Opcode `0x60` is `ANDI rx, HHLL`.
pub proof fn lemma_selects_andi_rx_hhll(s: CpuState, i: Instruction, random: u16)
    requires
        opcode_byte(i) == 0x60,
    ensures
        after(s, i, random) == after_andi_rx_hhll(s, i),
{
    reveal(after_arith);
}

/// Opcode `0x61` is `AND rx, ry`.
pub proof fn lemma_selects_and_rx_ry(s: CpuState, i: Instruction, random: u16)
    requires
        opcode_byte(i) == 0x61,
    ensures
        after(s, i, random) == after_and_rx_ry(s, i),
{
    reveal(after_arith);
}

/// Opcode `0x62` is `AND rx, ry, rz`.
pub proof fn lemma_selects_and_rx_ry_rz(s: CpuState, i: Instruction, random: u16)
    requires
        opcode_byte(i) == 0x62,
    ensures
        after(s, i, random) == after_and_rx_ry_rz(s, i),
{
    reveal(after_arith);
}

/// Opcode `0x63` is `TSTI rx, HHLL`.
pub proof fn lemma_selects_tsti_rx_hhll(s: CpuState, i: Instruction, random: u16)
    requires
        opcode_byte(i) == 0x63,
    ensures
        after(s, i, random) == after_tsti_rx_hhll(s, i),
{
    reveal(after_arith);
}

/// Opcode `0x64` is `TST rx, ry`.
pub proof fn lemma_selects_tst_rx_ry(s: CpuState, i: Instruction, random: u16)
    requires
        opcode_byte(i) == 0x64,
    ensures
        after(s, i, random) == after_tst_rx_ry(s, i),
{
    reveal(after_arith);
}

/// Opcode `0x70` is `ORI rx, HHLL`.
pub proof fn lemma_selects_ori_rx_hhll(s: CpuState, i: Instruction, random: u16)
    requires
        opcode_byte(i) == 0x70,
    ensures
        after(s, i, random) == after_ori_rx_hhll(s, i),
{
    reveal(after_arith);
}

/// Opcode `0x71` is `OR rx, ry`.
pub proof fn lemma_selects_or_rx_ry(s: CpuState, i: Instruction, random: u16)
    requires
        opcode_byte(i) == 0x71,
    ensures
        after(s, i, random) == after_or_rx_ry(s, i),
{
    reveal(after_arith);
}

/// Opcode `0x72` is `OR rx, ry, rz`.
pub proof fn lemma_selects_or_rx_ry_rz(s: CpuState, i: Instruction, random: u16)
    requires
        opcode_byte(i) == 0x72,
    ensures
        after(s, i, random) == after_or_rx_ry_rz(s, i),
{
    reveal(after_arith);
}

/// Opcode `0x80` is `XORI rx, HHLL`.
pub proof fn lemma_selects_xori_rx_hhll(s: CpuState, i: Instruction, random: u16)
    requires
        opcode_byte(i) == 0x80,
    ensures
        after(s, i, random) == after_xori_rx_hhll(s, i),
{
    reveal(after_arith);
}

/// Opcode `0x81` is `XOR rx, ry`.
pub proof fn lemma_selects_xor_rx_ry(s: CpuState, i: Instruction, random: u16)
    requires
        opcode_byte(i) == 0x81,
    ensures
        after(s, i, random) == after_xor_rx_ry(s, i),
{
    reveal(after_arith);
}

/// Opcode `0x82` is `XOR rx, ry, rz`.
pub proof fn lemma_selects_xor_rx_ry_rz(s: CpuState, i: Instruction, random: u16)
    requires
        opcode_byte(i) == 0x82,
    ensures
        after(s, i, random) == after_xor_rx_ry_rz(s, i),
{
    reveal(after_arith);
}

/// Opcode `0x90` is `MULI rx, HHLL`.
pub proof fn lemma_selects_muli_rx_hhll(s: CpuState, i: Instruction, random: u16)
    requires
        opcode_byte(i) == 0x90,
    ensures
        after(s, i, random) == after_muli_rx_hhll(s, i),
{
    reveal(after_arith);
}

/// Opcode `0x91` is `MUL rx, ry`.
pub proof fn lemma_selects_mul_rx_ry(s: CpuState, i: Instruction, random: u16)
    requires
        opcode_byte(i) == 0x91,
    ensures
        after(s, i, random) == after_mul_rx_ry(s, i),
{
    reveal(after_arith);
}

/// Opcode `0x92` is `MUL rx, ry, rz`.
pub proof fn lemma_selects_mul_rx_ry_rz(s: CpuState, i: Instruction, random: u16)
    requires
        opcode_byte(i) == 0x92,
    ensures
        after(s, i, random) == after_mul_rx_ry_rz(s, i),
{
    reveal(after_arith);
}

/// Opcode `0xA0` is `DIVI rx, HHLL`.
pub proof fn lemma_selects_divi_rx_hhll(s: CpuState, i: Instruction, random: u16)
    requires
        opcode_byte(i) == 0xA0,
    ensures
        after(s, i, random) == after_divi_rx_hhll(s, i),
{
    reveal(after_arith);
}

/// Opcode `0xA1` is `DIV rx, ry`.
pub proof fn lemma_selects_div_rx_ry(s: CpuState, i: Instruction, random: u16)
    requires
        opcode_byte(i) == 0xA1,
    ensures
        after(s, i, random) == after_div_rx_ry(s, i),
{
    reveal(after_arith);
}

/// Opcode `0xA2` is `DIV rx, ry, rz`.
pub proof fn lemma_selects_div_rx_ry_rz(s: CpuState, i: Instruction, random: u16)
    requires
        opcode_byte(i) == 0xA2,
    ensures
        after(s, i, random) == after_div_rx_ry_rz(s, i),
{
    reveal(after_arith);
}

/// Opcode `0xA3` is `MODI rx, HHLL`.
pub proof fn lemma_selects_modi_rx_hhll(s: CpuState, i: Instruction, random: u16)
    requires
        opcode_byte(i) == 0xA3,
    ensures
        after(s, i, random) == after_modi_rx_hhll(s, i),
{
    reveal(after_arith);
}

/// Opcode `0xA4` is `MOD rx, ry`.
pub proof fn lemma_selects_mod_rx_ry(s: CpuState, i: Instruction, random: u16)
    requires
        opcode_byte(i) == 0xA4,
    ensures
        after(s, i, random) == after_mod_rx_ry(s, i),
{
    reveal(after_arith);
}

/// Opcode `0xA5` is `MOD rx, ry, rz`.
pub proof fn lemma_selects_mod_rx_ry_rz(s: CpuState, i: Instruction, random: u16)
    requires
        opcode_byte(i) == 0xA5,
    ensures
        after(s, i, random) == after_mod_rx_ry_rz(s, i),
{
    reveal(after_arith);
}

/// Opcode `0xA6` is `REMI rx, HHLL`.
pub proof fn lemma_selects_remi_rx_hhll(s: CpuState, i: Instruction, random: u16)
    requires
        opcode_byte(i) == 0xA6,
    ensures
        after(s, i, random) == after_remi_rx_hhll(s, i),
{
    reveal(after_arith);
}

/// Opcode `0xA7` is `REM rx, ry`.
pub proof fn lemma_selects_rem_rx_ry(s: CpuState, i: Instruction, random: u16)
    requires
        opcode_byte(i) == 0xA7,
    ensures
        after(s, i, random) == after_rem_rx_ry(s, i),
{
    reveal(after_arith);
}

/// Opcode `0xA8` is `REM rx, ry, rz`.
pub proof fn lemma_selects_rem_rx_ry_rz(s: CpuState, i: Instruction, random: u16)
    requires
        opcode_byte(i) == 0xA8,
    ensures
        after(s, i, random) == after_rem_rx_ry_rz(s, i),
{
    reveal(after_arith);
}

/// Opcode `0xB0` is `SHL rx, n`.
pub proof fn lemma_selects_shl_rx_n(s: CpuState, i: Instruction, random: u16)
    requires
        opcode_byte(i) == 0xB0,
    ensures
        after(s, i, random) == after_shl_rx_n(s, i),
{
    reveal(after_arith);
}

/// Opcode `0xB1` is `SHR rx, n`.
pub proof fn lemma_selects_shr_rx_n(s: CpuState, i: Instruction, random: u16)
    requires
        opcode_byte(i) == 0xB1,
    ensures
        after(s, i, random) == after_shr_rx_n(s, i),
{
    reveal(after_arith);
}

/// Opcode `0xB2` is `SAR rx, n`.
pub proof fn lemma_selects_sar_rx_n(s: CpuState, i: Instruction, random: u16)
    requires
        opcode_byte(i) == 0xB2,
    ensures
        after(s, i, random) == after_sar_rx_n(s, i),
{
    reveal(after_arith);
}

/// Opcode `0xB3` is `SHL rx, ry`.
pub proof fn lemma_selects_shl_rx_ry(s: CpuState, i: Instruction, random: u16)
    requires
        opcode_byte(i) == 0xB3,
    ensures
        after(s, i, random) == after_shl_rx_ry(s, i),
{
    reveal(after_arith);
}

/// Opcode `0xB4` is `SHR rx, ry`.
pub proof fn lemma_selects_shr_rx_ry(s: CpuState, i: Instruction, random: u16)
    requires
        opcode_byte(i) == 0xB4,
    ensures
        after(s, i, random) == after_shr_rx_ry(s, i),
{
    reveal(after_arith);
}

/// Opcode `0xB5` is `SAR rx, ry`.
pub proof fn lemma_selects_sar_rx_ry(s: CpuState, i: Instruction, random: u16)
    requires
        opcode_byte(i) == 0xB5,
    ensures
        after(s, i, random) == after_sar_rx_ry(s, i),
{
    reveal(after_arith);
}

/// Opcode `0xE0` is `NOTI rx, HHLL`.
pub proof fn lemma_selects_noti_rx_hhll(s: CpuState, i: Instruction, random: u16)
    requires
        opcode_byte(i) == 0xE0,
    ensures
        after(s, i, random) == after_noti_rx_hhll(s, i),
{
    reveal(after_arith);
}

/// Opcode `0xE1` is `NOT rx`.
pub proof fn lemma_selects_not_rx(s: CpuState, i: Instruction, random: u16)
    requires
        opcode_byte(i) == 0xE1,
    ensures
        after(s, i, random) == after_not_rx(s, i),
{
    reveal(after_arith);
}

/// Opcode `0xE2` is `NOT rx, ry`.
pub proof fn lemma_selects_not_rx_ry(s: CpuState, i: Instruction, random: u16)
    requires
        opcode_byte(i) == 0xE2,
    ensures
        after(s, i, random) == after_not_rx_ry(s, i),
{
    reveal(after_arith);
}

/// Opcode `0xE3` is `NEGI rx, HHLL`.
pub proof fn lemma_selects_negi_rx_hhll(s: CpuState, i: Instruction, random: u16)
    requires
        opcode_byte(i) == 0xE3,
    ensures
        after(s, i, random) == after_negi_rx_hhll(s, i),
{
    reveal(after_arith);
}

/// Opcode `0xE4` is `NEG rx`.
pub proof fn lemma_selects_neg_rx(s: CpuState, i: Instruction, random: u16)
    requires
        opcode_byte(i) == 0xE4,
    ensures
        after(s, i, random) == after_neg_rx(s, i),
{
    reveal(after_arith);
}

/// Opcode `0xE5` is `NEG rx, ry`.
pub proof fn lemma_selects_neg_rx_ry(s: CpuState, i: Instruction, random: u16)
    requires
        opcode_byte(i) == 0xE5,
    ensures
        after(s, i, random) == after_neg_rx_ry(s, i),
{
    reveal(after_arith);
}

} // verus!
