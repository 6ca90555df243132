//! The instructions of the video and sound hardware: opcodes `0x00` to
//! `0x0E`.

use vstd::prelude::*;
use crate::cpu::{draw_sprite, load_mem, CPU};
use crate::instruction::{
    hhll, hhll_of, high_nibble, low_nibble, n, rx, rx_ry, rx_ry_rz, Instruction,
};
use crate::random::random_below;
use crate::semantics::{
    after_bgc_n, after_cls, after_drw_rx_ry_hhll, after_drw_rx_ry_rz, after_flip, after_nop,
    after_rnd_rx_hhll, after_snd0, after_snd1_hhll, after_snd2_hhll, after_snd3_hhll,
    after_sng_ad_vtsr, after_snp_rx_hhll, after_spr_hhll, after_vblnk, fault_message, Fault,
};
use crate::word::{to_signed, to_unsigned};

verus! {

/// The handler of every opcode that names no instruction: nothing changes,
/// and the machine stops.
pub fn error(state: &mut CPU, instruction: &Instruction) -> (r: Result<(), String>)
    ensures
        *final(state) == *old(state),
        r matches Err(e) && e@ == fault_message(Fault::InvalidCommand),
{
    Err("Invalid command".to_owned())
}

/// Stores a number that was drawn for `RND` in `R[x]`.
pub fn store_random(state: &mut CPU, instruction: &Instruction, value: u16) -> (r: Result<(), String>)
    requires
        old(state)@.wf(),
    ensures
        final(state)@ == after_rnd_rx_hhll(old(state)@, *instruction, value),
        final(state)@.wf(),
        final(state).ready() == old(state).ready(),
        r is Ok,
{
    let rx: usize = rx(instruction);
    state.registers[rx] = to_signed(value);
    Ok(())
}

/// `RND rx, HHLL`. `R[x]` becomes a number drawn from `0..=HHLL`; which one
/// is left to the generator.
pub fn rnd_rx_hhll(state: &mut CPU, instruction: &Instruction) -> (r: Result<(), String>)
    requires
        old(state)@.wf(),
    ensures
        exists|random: u16|
            random <= hhll_of(*instruction) && final(state)@ == after_rnd_rx_hhll(
                old(state)@,
                *instruction,
                random,
            ),
        final(state)@.wf(),
        final(state).ready() == old(state).ready(),
        r is Ok,
{
    let max: u32 = hhll(instruction) as u32 + 1;
    let drawn: u32 = random_below(max);
    store_random(state, instruction, drawn as u16)
}

/// `NOP`. Nothing changes.
pub fn nop(state: &mut CPU, instruction: &Instruction) -> (r: Result<(), String>)
    requires
        old(state)@.wf(),
    ensures
        final(state)@ == after_nop(old(state)@, *instruction),
        final(state)@.wf(),
        final(state).ready() == old(state).ready(),
        r is Ok,
{
    Ok(())
}

/// `CLS`. The screen is cleared to index 0 and the background colour set to 0.
pub fn cls(state: &mut CPU, instruction: &Instruction) -> (r: Result<(), String>)
    requires
        old(state)@.wf(),
    ensures
        final(state)@ == after_cls(old(state)@, *instruction),
        final(state)@.wf(),
        final(state).ready() == old(state).ready(),
        r is Ok,
{
    state.graphics.bg = 0;
    state.screen = [0u8; 76800];
    assert(state@.screen =~= old(state)@.cleared().screen);
    Ok(())
}

/// `VBLNK`. Unless the vblank latch is set, the program counter steps back by
/// 4, so that the instruction runs again until a frame boundary has set the
/// latch.
pub fn vblnk(state: &mut CPU, instruction: &Instruction) -> (r: Result<(), String>)
    requires
        old(state)@.wf(),
    ensures
        final(state)@ == after_vblnk(old(state)@, *instruction),
        final(state)@.wf(),
        final(state).ready() == old(state).ready(),
        r is Ok,
{
    if !state.vblnk {
        state.pc = state.pc.wrapping_sub(4);
    }
    Ok(())
}

/// `BGC n`. The background colour becomes the low nibble of byte 2.
pub fn bgc_n(state: &mut CPU, instruction: &Instruction) -> (r: Result<(), String>)
    requires
        old(state)@.wf(),
    ensures
        final(state)@ == after_bgc_n(old(state)@, *instruction),
        final(state)@.wf(),
        final(state).ready() == old(state).ready(),
        r is Ok,
{
    state.graphics.bg = n(instruction);
    Ok(())
}

/// `SPR HHLL`. The sprite width becomes byte 2 and the sprite height byte 3.
pub fn spr_hhll(state: &mut CPU, instruction: &Instruction) -> (r: Result<(), String>)
    requires
        old(state)@.wf(),
    ensures
        final(state)@ == after_spr_hhll(old(state)@, *instruction),
        final(state)@.wf(),
        final(state).ready() == old(state).ready(),
        r is Ok,
{
    state.graphics.spritew = instruction[2];
    state.graphics.spriteh = instruction[3];
    Ok(())
}

/// `DRW rx, ry, HHLL`. The sprite at address HHLL is drawn at `(R[x], R[y])`; C
/// reports a collision.
pub fn drw_rx_ry_hhll(state: &mut CPU, instruction: &Instruction) -> (r: Result<(), String>)
    requires
        old(state)@.wf(),
    ensures
        final(state)@ == after_drw_rx_ry_hhll(old(state)@, *instruction),
        final(state)@.wf(),
        final(state).ready() == old(state).ready(),
        r is Ok,
{
    let (rx, ry) = rx_ry(instruction);
    let sprite_addr: u16 = hhll(instruction);
    let x: i16 = state.registers[rx];
    let y: i16 = state.registers[ry];
    draw_sprite(state, x, y, sprite_addr);
    Ok(())
}

/// `DRW rx, ry, rz`. The sprite at the address in `R[z]` is drawn at `(R[x],
/// R[y])`; C reports a collision.
pub fn drw_rx_ry_rz(state: &mut CPU, instruction: &Instruction) -> (r: Result<(), String>)
    requires
        old(state)@.wf(),
    ensures
        final(state)@ == after_drw_rx_ry_rz(old(state)@, *instruction),
        final(state)@.wf(),
        final(state).ready() == old(state).ready(),
        r is Ok,
{
    let (rx, ry, rz) = rx_ry_rz(instruction);
    let sprite_addr: u16 = to_unsigned(state.registers[rz]);
    let x: i16 = state.registers[rx];
    let y: i16 = state.registers[ry];
    draw_sprite(state, x, y, sprite_addr);
    Ok(())
}

/// `FLIP`. Vertical mirroring becomes bit 0 of byte 3 and horizontal mirroring
/// bit 1: bits 8 and 9 of the immediate.
pub fn flip(state: &mut CPU, instruction: &Instruction) -> (r: Result<(), String>)
    requires
        old(state)@.wf(),
    ensures
        final(state)@ == after_flip(old(state)@, *instruction),
        final(state)@.wf(),
        final(state).ready() == old(state).ready(),
        r is Ok,
{
    let flip: u16 = hhll(instruction) / 256;
    state.graphics.vflip = flip % 2 == 1;
    state.graphics.hflip = (flip / 2) % 2 == 1;
    Ok(())
}

/// `SND0`. The tone generator is stopped.
pub fn snd0(state: &mut CPU, instruction: &Instruction) -> (r: Result<(), String>)
    requires
        old(state)@.wf(),
    ensures
        final(state)@ == after_snd0(old(state)@, *instruction),
        final(state)@.wf(),
        final(state).ready() == old(state).ready(),
        r is Ok,
{
    state.audio_state.clear();
    Ok(())
}

/// `SND1 HHLL`. A fixed tone of 500 Hz plays for HHLL milliseconds.
pub fn snd1_hhll(state: &mut CPU, instruction: &Instruction) -> (r: Result<(), String>)
    requires
        old(state)@.wf(),
    ensures
        final(state)@ == after_snd1_hhll(old(state)@, *instruction),
        final(state)@.wf(),
        final(state).ready() == old(state).ready(),
        r is Ok,
{
    state.audio_state.play_sound(500, hhll(instruction));
    Ok(())
}

/// `SND2 HHLL`. A fixed tone of 1000 Hz plays for HHLL milliseconds.
pub fn snd2_hhll(state: &mut CPU, instruction: &Instruction) -> (r: Result<(), String>)
    requires
        old(state)@.wf(),
    ensures
        final(state)@ == after_snd2_hhll(old(state)@, *instruction),
        final(state)@.wf(),
        final(state).ready() == old(state).ready(),
        r is Ok,
{
    state.audio_state.play_sound(1000, hhll(instruction));
    Ok(())
}

/// `SND3 HHLL`. A fixed tone of 1500 Hz plays for HHLL milliseconds.
pub fn snd3_hhll(state: &mut CPU, instruction: &Instruction) -> (r: Result<(), String>)
    requires
        old(state)@.wf(),
    ensures
        final(state)@ == after_snd3_hhll(old(state)@, *instruction),
        final(state)@.wf(),
        final(state).ready() == old(state).ready(),
        r is Ok,
{
    state.audio_state.play_sound(1500, hhll(instruction));
    Ok(())
}

/// `SNP rx, HHLL`. The tone whose frequency is the word at the address in
/// `R[x]` plays for HHLL milliseconds, shaped by the current envelope.
pub fn snp_rx_hhll(state: &mut CPU, instruction: &Instruction) -> (r: Result<(), String>)
    requires
        old(state)@.wf(),
    ensures
        final(state)@ == after_snp_rx_hhll(old(state)@, *instruction),
        final(state)@.wf(),
        final(state).ready() == old(state).ready(),
        r is Ok,
{
    let rx: usize = rx(instruction);
    let addr: u16 = to_unsigned(state.registers[rx]);
    let freq: u16 = load_mem(state, addr);
    state.audio_state.play_custom_sound(freq, hhll(instruction));
    state.audio_state.start();
    Ok(())
}

/// `SNG AD, VTSR`. The envelope and waveform are set from six nibbles: attack
/// and decay from byte 1, sustain and release from byte 2, volume and waveform
/// from byte 3, the first of each pair in the high nibble. A waveform index
/// above 3 is an error.
pub fn sng_ad_vtsr(state: &mut CPU, instruction: &Instruction) -> (r: Result<(), String>)
    requires
        old(state)@.wf(),
    ensures
        final(state)@ == after_sng_ad_vtsr(old(state)@, *instruction),
        final(state)@.wf(),
        final(state).ready() == old(state).ready(),
        r is Err <==> instruction[3] % 16 > 3,
        r matches Err(e) ==> e@ == fault_message(Fault::InvalidWaveType),
{
    let attack: u8 = high_nibble(instruction[1]);
    let decay: u8 = low_nibble(instruction[1]);
    let sustain: u8 = high_nibble(instruction[2]);
    let release: u8 = low_nibble(instruction[2]);
    let volume: u8 = high_nibble(instruction[3]);
    let wave_type: u8 = low_nibble(instruction[3]);
    state.audio_state.set_params(attack, decay, sustain, release, volume, wave_type)
}

} // verus!
