//! Loads, stores, the stack and the palette: opcodes `0x20` to `0x31` and
//! `0xC0` to `0xD1`.

use vstd::prelude::*;
use crate::cpu::{load_mem, load_palette, pop_reg, push_reg, store_mem, CPU};
use crate::flags::FLAGS;
use crate::instruction::{hhll, imm, rx, rx_ry, Instruction};
use crate::semantics::{
    after_ldi_rx_hhll, after_ldi_sp_hhll, after_ldm_rx_hhll, after_ldm_rx_ry, after_mov_rx_ry,
    after_pal_hhll, after_pal_rx, after_pop_rx, after_popall, after_popf, after_push_rx,
    after_pushall, after_pushf, after_stm_rx_hhll, after_stm_rx_ry,
};
use crate::state::{popped_registers, pushed_mem, store_word, word_at, CpuState};
use crate::word::{signed, to_signed, to_unsigned, unsigned, wrap16};

verus! {

/// Pushing register `r` after the registers below it extends the block of
/// pushed registers by one word.
proof fn lemma_push_next(mem: Seq<u8>, sp: u16, registers: Seq<i16>, r: int)
    requires
        mem.len() == 0x10000,
        registers.len() == 16,
        0 <= r < 16,
    ensures
        store_word(
            pushed_mem(mem, sp, registers, r),
            wrap16(sp + 2 * r) as int,
            unsigned(registers[r]) as u16,
        ) == pushed_mem(mem, sp, registers, r + 1),
        wrap16(wrap16(sp + 2 * r) + 2) == wrap16(sp + 2 * (r + 1)),
{
    let a = wrap16(sp + 2 * r) as int;
    let w = unsigned(registers[r]) as u16;
    let left = store_word(pushed_mem(mem, sp, registers, r), a, w);
    let right = pushed_mem(mem, sp, registers, r + 1);
    assert forall|k: int| 0 <= k < 0x10000 implies left[k] == right[k] by {
        let d = (k - sp) % 0x10000;
        if k == (a + 1) % 0x10000 {
            assert(d == 2 * r + 1);
        } else if k == a {
            assert(d == 2 * r);
        } else {
            assert(d != 2 * r && d != 2 * r + 1);
        }
    }
    assert(left =~= right);
}

/// Popping one more register after the `r` above it fills the next lower
/// register from the next lower word.
proof fn lemma_pop_next(mem: Seq<u8>, sp: u16, registers: Seq<i16>, r: int)
    requires
        mem.len() == 0x10000,
        registers.len() == 16,
        0 <= r < 16,
    ensures
        popped_registers(mem, sp, registers, r).update(
            15 - r,
            signed(word_at(mem, wrap16(wrap16(sp - 2 * r) - 2) as int) as int),
        ) == popped_registers(mem, sp, registers, r + 1),
        wrap16(wrap16(sp - 2 * r) - 2) == wrap16(sp - 2 * (r + 1)),
{
    let a = wrap16(wrap16(sp - 2 * r) - 2) as int;
    assert(a == (sp - 2 * (r + 1)) % 0x10000);
    assert((a + 1) % 0x10000 == (sp - 2 * (r + 1) + 1) % 0x10000);
    assert(word_at(mem, a) == word_at(mem, sp - 2 * (16 - (15 - r))));
    assert(popped_registers(mem, sp, registers, r).update(15 - r, signed(word_at(mem, a) as int))
        =~= popped_registers(mem, sp, registers, r + 1));
}

/// `LDI rx, HHLL`. `R[x]` becomes the immediate.
pub fn ldi_rx_hhll(state: &mut CPU, instruction: &Instruction) -> (r: Result<(), String>)
    requires
        old(state)@.wf(),
    ensures
        final(state)@ == after_ldi_rx_hhll(old(state)@, *instruction),
        final(state)@.wf(),
        final(state).ready() == old(state).ready(),
        r is Ok,
{
    let (rx, _) = rx_ry(instruction);
    state.registers[rx] = imm(instruction);
    Ok(())
}

/// `LDI SP, HHLL`. The stack pointer becomes HHLL.
pub fn ldi_sp_hhll(state: &mut CPU, instruction: &Instruction) -> (r: Result<(), String>)
    requires
        old(state)@.wf(),
    ensures
        final(state)@ == after_ldi_sp_hhll(old(state)@, *instruction),
        final(state)@.wf(),
        final(state).ready() == old(state).ready(),
        r is Ok,
{
    state.sp = hhll(instruction);
    Ok(())
}

/// `LDM rx, HHLL`. `R[x]` becomes the word at address HHLL.
pub fn ldm_rx_hhll(state: &mut CPU, instruction: &Instruction) -> (r: Result<(), String>)
    requires
        old(state)@.wf(),
    ensures
        final(state)@ == after_ldm_rx_hhll(old(state)@, *instruction),
        final(state)@.wf(),
        final(state).ready() == old(state).ready(),
        r is Ok,
{
    let (rx, _) = rx_ry(instruction);
    let word: u16 = load_mem(state, hhll(instruction));
    state.registers[rx] = to_signed(word);
    Ok(())
}

/// `LDM rx, ry`. `R[x]` becomes the word at the address in `R[y]`.
pub fn ldm_rx_ry(state: &mut CPU, instruction: &Instruction) -> (r: Result<(), String>)
    requires
        old(state)@.wf(),
    ensures
        final(state)@ == after_ldm_rx_ry(old(state)@, *instruction),
        final(state)@.wf(),
        final(state).ready() == old(state).ready(),
        r is Ok,
{
    let (rx, ry) = rx_ry(instruction);
    let word: u16 = load_mem(state, to_unsigned(state.registers[ry]));
    state.registers[rx] = to_signed(word);
    Ok(())
}

/// `MOV rx, ry`. `R[x]` becomes `R[y]`.
pub fn mov_rx_ry(state: &mut CPU, instruction: &Instruction) -> (r: Result<(), String>)
    requires
        old(state)@.wf(),
    ensures
        final(state)@ == after_mov_rx_ry(old(state)@, *instruction),
        final(state)@.wf(),
        final(state).ready() == old(state).ready(),
        r is Ok,
{
    let (rx, ry) = rx_ry(instruction);
    state.registers[rx] = state.registers[ry];
    Ok(())
}

/// `STM rx, HHLL`. `R[x]` is stored at address HHLL.
pub fn stm_rx_hhll(state: &mut CPU, instruction: &Instruction) -> (r: Result<(), String>)
    requires
        old(state)@.wf(),
    ensures
        final(state)@ == after_stm_rx_hhll(old(state)@, *instruction),
        final(state)@.wf(),
        final(state).ready() == old(state).ready(),
        r is Ok,
{
    let (rx, _) = rx_ry(instruction);
    let addr: u16 = hhll(instruction);
    let val: u16 = to_unsigned(state.registers[rx]);
    store_mem(state, val, addr);
    Ok(())
}

/// `STM rx, ry`. `R[x]` is stored at the address in `R[y]`.
pub fn stm_rx_ry(state: &mut CPU, instruction: &Instruction) -> (r: Result<(), String>)
    requires
        old(state)@.wf(),
    ensures
        final(state)@ == after_stm_rx_ry(old(state)@, *instruction),
        final(state)@.wf(),
        final(state).ready() == old(state).ready(),
        r is Ok,
{
    let (rx, ry) = rx_ry(instruction);
    let addr: u16 = to_unsigned(state.registers[ry]);
    let val: u16 = to_unsigned(state.registers[rx]);
    store_mem(state, val, addr);
    Ok(())
}

/// `PUSH rx`. `R[x]` is pushed.
pub fn push_rx(state: &mut CPU, instruction: &Instruction) -> (r: Result<(), String>)
    requires
        old(state)@.wf(),
    ensures
        final(state)@ == after_push_rx(old(state)@, *instruction),
        final(state)@.wf(),
        final(state).ready() == old(state).ready(),
        r is Ok,
{
    let rx: usize = rx(instruction);
    push_reg(state, rx);
    Ok(())
}

/// `POP rx`. `R[x]` is popped.
pub fn pop_rx(state: &mut CPU, instruction: &Instruction) -> (r: Result<(), String>)
    requires
        old(state)@.wf(),
    ensures
        final(state)@ == after_pop_rx(old(state)@, *instruction),
        final(state)@.wf(),
        final(state).ready() == old(state).ready(),
        r is Ok,
{
    let rx: usize = rx(instruction);
    pop_reg(state, rx);
    Ok(())
}

/// `PUSHALL`. All sixteen registers are pushed, register 0 first.
pub fn pushall(state: &mut CPU, instruction: &Instruction) -> (r: Result<(), String>)
    requires
        old(state)@.wf(),
    ensures
        final(state)@ == after_pushall(old(state)@, *instruction),
        final(state)@.wf(),
        final(state).ready() == old(state).ready(),
        r is Ok,
{
    let ghost before = state@;
    assert(pushed_mem(before.mem, before.sp, before.registers, 0) =~= before.mem);
    let mut r: usize = 0;
    while r < 16
        invariant
            r <= 16,
            before.wf(),
            state.ready() == old(state).ready(),
            state@ == (CpuState {
                mem: pushed_mem(before.mem, before.sp, before.registers, r as int),
                sp: wrap16(before.sp + 2 * r),
                ..before
            }),
        decreases 16 - r,
    {
        proof {
            lemma_push_next(before.mem, before.sp, before.registers, r as int);
        }
        push_reg(state, r);
        r = r + 1;
    }
    Ok(())
}

/// `POPALL`. All sixteen registers are popped, register 15 first.
pub fn popall(state: &mut CPU, instruction: &Instruction) -> (r: Result<(), String>)
    requires
        old(state)@.wf(),
    ensures
        final(state)@ == after_popall(old(state)@, *instruction),
        final(state)@.wf(),
        final(state).ready() == old(state).ready(),
        r is Ok,
{
    let ghost before = state@;
    assert(popped_registers(before.mem, before.sp, before.registers, 0) =~= before.registers);
    let mut r: usize = 0;
    while r < 16
        invariant
            r <= 16,
            before.wf(),
            state.ready() == old(state).ready(),
            state@ == (CpuState {
                registers: popped_registers(before.mem, before.sp, before.registers, r as int),
                sp: wrap16(before.sp - 2 * r),
                ..before
            }),
        decreases 16 - r,
    {
        let reg: usize = 15 - r;
        proof {
            lemma_pop_next(before.mem, before.sp, before.registers, r as int);
        }
        pop_reg(state, reg);
        r = r + 1;
    }
    Ok(())
}

/// `PUSHF`. The flags are pushed as one byte.
pub fn pushf(state: &mut CPU, instruction: &Instruction) -> (r: Result<(), String>)
    requires
        old(state)@.wf(),
    ensures
        final(state)@ == after_pushf(old(state)@, *instruction),
        final(state)@.wf(),
        final(state).ready() == old(state).ready(),
        r is Ok,
{
    let val: u8 = state.flags.to_byte();
    state.mem[state.sp as usize] = val;
    state.sp = state.sp.wrapping_add(2);
    Ok(())
}

/// `POPF`. The flags are popped.
pub fn popf(state: &mut CPU, instruction: &Instruction) -> (r: Result<(), String>)
    requires
        old(state)@.wf(),
    ensures
        final(state)@ == after_popf(old(state)@, *instruction),
        final(state)@.wf(),
        final(state).ready() == old(state).ready(),
        r is Ok,
{
    state.sp = state.sp.wrapping_sub(2);
    let val: u8 = state.mem[state.sp as usize];
    state.flags = FLAGS::from_byte(val);
    Ok(())
}

/// `PAL HHLL`. The palette is loaded from the 48 bytes at address HHLL.
pub fn pal_hhll(state: &mut CPU, instruction: &Instruction) -> (r: Result<(), String>)
    requires
        old(state)@.wf(),
    ensures
        final(state)@ == after_pal_hhll(old(state)@, *instruction),
        final(state)@.wf(),
        final(state).ready() == old(state).ready(),
        r is Ok,
{
    let addr: u16 = hhll(instruction);
    load_palette(state, addr);
    Ok(())
}

/// `PAL rx`. The palette is loaded from the 48 bytes at the address in `R[x]`.
pub fn pal_rx(state: &mut CPU, instruction: &Instruction) -> (r: Result<(), String>)
    requires
        old(state)@.wf(),
    ensures
        final(state)@ == after_pal_rx(old(state)@, *instruction),
        final(state)@.wf(),
        final(state).ready() == old(state).ready(),
        r is Ok,
{
    let addr: u16 = to_unsigned(state.registers[rx(instruction)]);
    load_palette(state, addr);
    Ok(())
}

} // verus!
