//! Jumps, calls and returns: opcodes `0x10` to `0x18`.

use vstd::prelude::*;
use crate::cpu::{load_mem, store_mem, test_cond, CPU};
use crate::instruction::{hhll, rx, rx_of, rx_ry, Instruction};
use crate::semantics::{
    after_call_hhll, after_call_rx, after_cx_hhll, after_jmc_hhll, after_jme_rx_ry_hhll,
    after_jmp_hhll, after_jmp_rx, after_jx_hhll, after_ret, fault_message, Fault,
};
use crate::word::to_unsigned;

verus! {

/// `JMP HHLL`. The program counter becomes HHLL.
pub fn jmp_hhll(state: &mut CPU, instruction: &Instruction) -> (r: Result<(), String>)
    requires
        old(state)@.wf(),
    ensures
        final(state)@ == after_jmp_hhll(old(state)@, *instruction),
        final(state)@.wf(),
        final(state).ready() == old(state).ready(),
        r is Ok,
{
    state.pc = hhll(instruction);
    Ok(())
}

/// `JMC HHLL`. If C is set, the program counter becomes HHLL.
pub fn jmc_hhll(state: &mut CPU, instruction: &Instruction) -> (r: Result<(), String>)
    requires
        old(state)@.wf(),
    ensures
        final(state)@ == after_jmc_hhll(old(state)@, *instruction),
        final(state)@.wf(),
        final(state).ready() == old(state).ready(),
        r is Ok,
{
    if state.flags.C {
        state.pc = hhll(instruction);
    }
    Ok(())
}

/// `Jx HHLL`. If the condition in the low nibble of byte 1 holds, the program
/// counter becomes HHLL. Condition `0xF` is an error and changes nothing.
pub fn jx_hhll(state: &mut CPU, instruction: &Instruction) -> (r: Result<(), String>)
    requires
        old(state)@.wf(),
    ensures
        final(state)@ == after_jx_hhll(old(state)@, *instruction),
        final(state)@.wf(),
        final(state).ready() == old(state).ready(),
        r is Err <==> rx_of(*instruction) == 15,
        r matches Err(e) ==> e@ == fault_message(Fault::InvalidCondition),
{
    if test_cond(state, instruction)? {
        state.pc = hhll(instruction);
    }
    Ok(())
}

/// `JME rx, ry, HHLL`. If `R[x]` equals `R[y]`, the program counter becomes
/// HHLL.
pub fn jme_rx_ry_hhll(state: &mut CPU, instruction: &Instruction) -> (r: Result<(), String>)
    requires
        old(state)@.wf(),
    ensures
        final(state)@ == after_jme_rx_ry_hhll(old(state)@, *instruction),
        final(state)@.wf(),
        final(state).ready() == old(state).ready(),
        r is Ok,
{
    let (rx, ry) = rx_ry(instruction);
    if state.registers[rx] == state.registers[ry] {
        state.pc = hhll(instruction);
    }
    Ok(())
}

/// `CALL HHLL`. The program counter is pushed and becomes HHLL.
pub fn call_hhll(state: &mut CPU, instruction: &Instruction) -> (r: Result<(), String>)
    requires
        old(state)@.wf(),
    ensures
        final(state)@ == after_call_hhll(old(state)@, *instruction),
        final(state)@.wf(),
        final(state).ready() == old(state).ready(),
        r is Ok,
{
    let pc: u16 = state.pc;
    let sp: u16 = state.sp;
    store_mem(state, pc, sp);
    state.sp = state.sp.wrapping_add(2);
    state.pc = hhll(instruction);
    Ok(())
}

/// `RET`. The program counter is popped.
pub fn ret(state: &mut CPU, instruction: &Instruction) -> (r: Result<(), String>)
    requires
        old(state)@.wf(),
    ensures
        final(state)@ == after_ret(old(state)@, *instruction),
        final(state)@.wf(),
        final(state).ready() == old(state).ready(),
        r is Ok,
{
    state.sp = state.sp.wrapping_sub(2);
    let addr: u16 = state.sp;
    state.pc = load_mem(state, addr);
    Ok(())
}

/// `JMP rx`. The program counter becomes `R[x]`.
pub fn jmp_rx(state: &mut CPU, instruction: &Instruction) -> (r: Result<(), String>)
    requires
        old(state)@.wf(),
    ensures
        final(state)@ == after_jmp_rx(old(state)@, *instruction),
        final(state)@.wf(),
        final(state).ready() == old(state).ready(),
        r is Ok,
{
    let (rx, _) = rx_ry(instruction);
    state.pc = to_unsigned(state.registers[rx]);
    Ok(())
}

/// `Cx HHLL`. If the condition in the low nibble of byte 1 holds, the program
/// counter is pushed and becomes HHLL. Condition `0xF` is an error and changes
/// nothing.
pub fn cx_hhll(state: &mut CPU, instruction: &Instruction) -> (r: Result<(), String>)
    requires
        old(state)@.wf(),
    ensures
        final(state)@ == after_cx_hhll(old(state)@, *instruction),
        final(state)@.wf(),
        final(state).ready() == old(state).ready(),
        r is Err <==> rx_of(*instruction) == 15,
        r matches Err(e) ==> e@ == fault_message(Fault::InvalidCondition),
{
    if test_cond(state, instruction)? {
        let pc: u16 = state.pc;
        let sp: u16 = state.sp;
        store_mem(state, pc, sp);
        state.sp = state.sp.wrapping_add(2);
        state.pc = hhll(instruction);
    }
    Ok(())
}

/// `CALL rx`. The program counter is pushed and becomes `R[x]`.
pub fn call_rx(state: &mut CPU, instruction: &Instruction) -> (r: Result<(), String>)
    requires
        old(state)@.wf(),
    ensures
        final(state)@ == after_call_rx(old(state)@, *instruction),
        final(state)@.wf(),
        final(state).ready() == old(state).ready(),
        r is Ok,
{
    let rx: usize = rx(instruction);
    let pc: u16 = state.pc;
    let sp: u16 = state.sp;
    store_mem(state, pc, sp);
    state.sp = state.sp.wrapping_add(2);
    state.pc = to_unsigned(state.registers[rx]);
    Ok(())
}

} // verus!
