//! Arithmetic, logic and shifts: opcodes `0x40` to `0xB5` and `0xE0` to
//! `0xE5`.

use vstd::prelude::*;
use crate::alu::{
    and_flags, count_of, op_add, op_div, op_mod, op_mul, op_neg, op_not, op_rem, op_sar, op_shl,
    op_shr, op_sub, set_flags_z_n,
};
use crate::cpu::CPU;
use crate::instruction::{imm, imm_of, n, rx, rx_ry, rx_ry_rz, ry_of, Instruction};
use crate::semantics::{
    after_add_rx_ry, after_add_rx_ry_rz, after_addi_rx_hhll, after_and_rx_ry, after_and_rx_ry_rz,
    after_andi_rx_hhll, after_cmp_rx_ry, after_cmpi_rx_hhll, after_div_rx_ry, after_div_rx_ry_rz,
    after_divi_rx_hhll, after_mod_rx_ry, after_mod_rx_ry_rz, after_modi_rx_hhll, after_mul_rx_ry,
    after_mul_rx_ry_rz, after_muli_rx_hhll, after_neg_rx, after_neg_rx_ry, after_negi_rx_hhll,
    after_not_rx, after_not_rx_ry, after_noti_rx_hhll, after_or_rx_ry, after_or_rx_ry_rz,
    after_ori_rx_hhll, after_rem_rx_ry, after_rem_rx_ry_rz, after_remi_rx_hhll, after_sar_rx_n,
    after_sar_rx_ry, after_shl_rx_n, after_shl_rx_ry, after_shr_rx_n, after_shr_rx_ry,
    after_sub_rx_ry, after_sub_rx_ry_rz, after_subi_rx_hhll, after_tst_rx_ry, after_tsti_rx_hhll,
    after_xor_rx_ry, after_xor_rx_ry_rz, after_xori_rx_hhll, fault_message, Fault,
};

verus! {

/// `ADDI rx, HHLL`. `R[x]` becomes `R[x]` plus the immediate; C, Z, O and N are
/// set.
pub fn addi_rx_hhll(state: &mut CPU, instruction: &Instruction) -> (r: Result<(), String>)
    requires
        old(state)@.wf(),
    ensures
        final(state)@ == after_addi_rx_hhll(old(state)@, *instruction),
        final(state)@.wf(),
        final(state).ready() == old(state).ready(),
        r is Ok,
{
    let (rx, _) = rx_ry(instruction);
    let val: i16 = imm(instruction);
    let result: i16 = op_add(&mut state.flags, state.registers[rx], val);
    state.registers[rx] = result;
    Ok(())
}

/// `ADD rx, ry`. `R[x]` becomes `R[x]` plus `R[y]`; C, Z, O and N are set.
pub fn add_rx_ry(state: &mut CPU, instruction: &Instruction) -> (r: Result<(), String>)
    requires
        old(state)@.wf(),
    ensures
        final(state)@ == after_add_rx_ry(old(state)@, *instruction),
        final(state)@.wf(),
        final(state).ready() == old(state).ready(),
        r is Ok,
{
    let (rx, ry) = rx_ry(instruction);
    let val: i16 = state.registers[ry];
    let result: i16 = op_add(&mut state.flags, state.registers[rx], val);
    state.registers[rx] = result;
    Ok(())
}

/// `ADD rx, ry, rz`. `R[z]` becomes `R[x]` plus `R[y]`; C, Z, O and N are set.
pub fn add_rx_ry_rz(state: &mut CPU, instruction: &Instruction) -> (r: Result<(), String>)
    requires
        old(state)@.wf(),
    ensures
        final(state)@ == after_add_rx_ry_rz(old(state)@, *instruction),
        final(state)@.wf(),
        final(state).ready() == old(state).ready(),
        r is Ok,
{
    let (rx, ry, rz) = rx_ry_rz(instruction);
    let val: i16 = state.registers[ry];
    let result: i16 = op_add(&mut state.flags, state.registers[rx], val);
    state.registers[rz] = result;
    Ok(())
}

/// `SUBI rx, HHLL`. `R[x]` becomes `R[x]` minus the immediate; C, Z, O and N
/// are set.
pub fn subi_rx_hhll(state: &mut CPU, instruction: &Instruction) -> (r: Result<(), String>)
    requires
        old(state)@.wf(),
    ensures
        final(state)@ == after_subi_rx_hhll(old(state)@, *instruction),
        final(state)@.wf(),
        final(state).ready() == old(state).ready(),
        r is Ok,
{
    let (rx, _) = rx_ry(instruction);
    let val: i16 = imm(instruction);
    let result: i16 = op_sub(&mut state.flags, state.registers[rx], val);
    state.registers[rx] = result;
    Ok(())
}

/// `SUB rx, ry`. `R[x]` becomes `R[x]` minus `R[y]`; C, Z, O and N are set.
pub fn sub_rx_ry(state: &mut CPU, instruction: &Instruction) -> (r: Result<(), String>)
    requires
        old(state)@.wf(),
    ensures
        final(state)@ == after_sub_rx_ry(old(state)@, *instruction),
        final(state)@.wf(),
        final(state).ready() == old(state).ready(),
        r is Ok,
{
    let (rx, ry) = rx_ry(instruction);
    let val: i16 = state.registers[ry];
    let result: i16 = op_sub(&mut state.flags, state.registers[rx], val);
    state.registers[rx] = result;
    Ok(())
}

/// `SUB rx, ry, rz`. `R[z]` becomes `R[x]` minus `R[y]`; C, Z, O and N are set.
pub fn sub_rx_ry_rz(state: &mut CPU, instruction: &Instruction) -> (r: Result<(), String>)
    requires
        old(state)@.wf(),
    ensures
        final(state)@ == after_sub_rx_ry_rz(old(state)@, *instruction),
        final(state)@.wf(),
        final(state).ready() == old(state).ready(),
        r is Ok,
{
    let (rx, ry, rz) = rx_ry_rz(instruction);
    let val: i16 = state.registers[ry];
    let result: i16 = op_sub(&mut state.flags, state.registers[rx], val);
    state.registers[rz] = result;
    Ok(())
}

/// `CMPI rx, HHLL`. The flags become those of `R[x]` minus the immediate; no
/// register changes.
pub fn cmpi_rx_hhll(state: &mut CPU, instruction: &Instruction) -> (r: Result<(), String>)
    requires
        old(state)@.wf(),
    ensures
        final(state)@ == after_cmpi_rx_hhll(old(state)@, *instruction),
        final(state)@.wf(),
        final(state).ready() == old(state).ready(),
        r is Ok,
{
    let (rx, _) = rx_ry(instruction);
    let val: i16 = imm(instruction);
    let _ = op_sub(&mut state.flags, state.registers[rx], val);
    Ok(())
}

/// `CMP rx, ry`. The flags become those of `R[x]` minus `R[y]`; no register
/// changes.
pub fn cmp_rx_ry(state: &mut CPU, instruction: &Instruction) -> (r: Result<(), String>)
    requires
        old(state)@.wf(),
    ensures
        final(state)@ == after_cmp_rx_ry(old(state)@, *instruction),
        final(state)@.wf(),
        final(state).ready() == old(state).ready(),
        r is Ok,
{
    let (rx, ry) = rx_ry(instruction);
    let val: i16 = state.registers[ry];
    let _ = op_sub(&mut state.flags, state.registers[rx], val);
    Ok(())
}

/// `ANDI rx, HHLL`. `R[x]` becomes `R[x]` AND the immediate; Z and N are set.
pub fn andi_rx_hhll(state: &mut CPU, instruction: &Instruction) -> (r: Result<(), String>)
    requires
        old(state)@.wf(),
    ensures
        final(state)@ == after_andi_rx_hhll(old(state)@, *instruction),
        final(state)@.wf(),
        final(state).ready() == old(state).ready(),
        r is Ok,
{
    let (rx, _) = rx_ry(instruction);
    let val: i16 = imm(instruction);
    and_flags(&mut state.flags, state.registers[rx], val);
    state.registers[rx] = state.registers[rx] & val;
    Ok(())
}

/// `AND rx, ry`. `R[x]` becomes `R[x]` AND `R[y]`; Z and N are set.
pub fn and_rx_ry(state: &mut CPU, instruction: &Instruction) -> (r: Result<(), String>)
    requires
        old(state)@.wf(),
    ensures
        final(state)@ == after_and_rx_ry(old(state)@, *instruction),
        final(state)@.wf(),
        final(state).ready() == old(state).ready(),
        r is Ok,
{
    let (rx, ry) = rx_ry(instruction);
    let val: i16 = state.registers[ry];
    and_flags(&mut state.flags, state.registers[rx], val);
    state.registers[rx] = state.registers[rx] & val;
    Ok(())
}

/// `AND rx, ry, rz`. `R[z]` becomes `R[x]` AND `R[y]`; Z and N are set.
pub fn and_rx_ry_rz(state: &mut CPU, instruction: &Instruction) -> (r: Result<(), String>)
    requires
        old(state)@.wf(),
    ensures
        final(state)@ == after_and_rx_ry_rz(old(state)@, *instruction),
        final(state)@.wf(),
        final(state).ready() == old(state).ready(),
        r is Ok,
{
    let (rx, ry, rz) = rx_ry_rz(instruction);
    let val: i16 = state.registers[ry];
    and_flags(&mut state.flags, state.registers[rx], val);
    state.registers[rz] = state.registers[rx] & val;
    Ok(())
}

/// `TSTI rx, HHLL`. Z and N become those of `R[x]` AND the immediate; no
/// register changes.
pub fn tsti_rx_hhll(state: &mut CPU, instruction: &Instruction) -> (r: Result<(), String>)
    requires
        old(state)@.wf(),
    ensures
        final(state)@ == after_tsti_rx_hhll(old(state)@, *instruction),
        final(state)@.wf(),
        final(state).ready() == old(state).ready(),
        r is Ok,
{
    let (rx, _) = rx_ry(instruction);
    let val: i16 = imm(instruction);
    and_flags(&mut state.flags, state.registers[rx], val);
    Ok(())
}

/// `TST rx, ry`. Z and N become those of `R[x]` AND `R[y]`; no register
/// changes.
pub fn tst_rx_ry(state: &mut CPU, instruction: &Instruction) -> (r: Result<(), String>)
    requires
        old(state)@.wf(),
    ensures
        final(state)@ == after_tst_rx_ry(old(state)@, *instruction),
        final(state)@.wf(),
        final(state).ready() == old(state).ready(),
        r is Ok,
{
    let (rx, ry) = rx_ry(instruction);
    let val: i16 = state.registers[ry];
    and_flags(&mut state.flags, state.registers[rx], val);
    Ok(())
}

/// `ORI rx, HHLL`. `R[x]` becomes `R[x]` OR the immediate; Z and N are set.
pub fn ori_rx_hhll(state: &mut CPU, instruction: &Instruction) -> (r: Result<(), String>)
    requires
        old(state)@.wf(),
    ensures
        final(state)@ == after_ori_rx_hhll(old(state)@, *instruction),
        final(state)@.wf(),
        final(state).ready() == old(state).ready(),
        r is Ok,
{
    let (rx, _) = rx_ry(instruction);
    let result: i16 = state.registers[rx] | imm(instruction);
    state.registers[rx] = result;
    set_flags_z_n(&mut state.flags, result);
    Ok(())
}

/// `OR rx, ry`. `R[x]` becomes `R[x]` OR `R[y]`; Z and N are set.
pub fn or_rx_ry(state: &mut CPU, instruction: &Instruction) -> (r: Result<(), String>)
    requires
        old(state)@.wf(),
    ensures
        final(state)@ == after_or_rx_ry(old(state)@, *instruction),
        final(state)@.wf(),
        final(state).ready() == old(state).ready(),
        r is Ok,
{
    let (rx, ry) = rx_ry(instruction);
    let result: i16 = state.registers[rx] | state.registers[ry];
    state.registers[rx] = result;
    set_flags_z_n(&mut state.flags, result);
    Ok(())
}

/// `OR rx, ry, rz`. `R[z]` becomes `R[x]` OR `R[y]`; Z and N are set.
pub fn or_rx_ry_rz(state: &mut CPU, instruction: &Instruction) -> (r: Result<(), String>)
    requires
        old(state)@.wf(),
    ensures
        final(state)@ == after_or_rx_ry_rz(old(state)@, *instruction),
        final(state)@.wf(),
        final(state).ready() == old(state).ready(),
        r is Ok,
{
    let (rx, ry, rz) = rx_ry_rz(instruction);
    let result: i16 = state.registers[rx] | state.registers[ry];
    state.registers[rz] = result;
    set_flags_z_n(&mut state.flags, result);
    Ok(())
}

/// `XORI rx, HHLL`. `R[x]` becomes `R[x]` XOR the immediate; Z and N are set.
pub fn xori_rx_hhll(state: &mut CPU, instruction: &Instruction) -> (r: Result<(), String>)
    requires
        old(state)@.wf(),
    ensures
        final(state)@ == after_xori_rx_hhll(old(state)@, *instruction),
        final(state)@.wf(),
        final(state).ready() == old(state).ready(),
        r is Ok,
{
    let (rx, _) = rx_ry(instruction);
    let result: i16 = state.registers[rx] ^ imm(instruction);
    state.registers[rx] = result;
    set_flags_z_n(&mut state.flags, result);
    Ok(())
}

/// `XOR rx, ry`. `R[x]` becomes `R[x]` XOR `R[y]`; Z and N are set.
pub fn xor_rx_ry(state: &mut CPU, instruction: &Instruction) -> (r: Result<(), String>)
    requires
        old(state)@.wf(),
    ensures
        final(state)@ == after_xor_rx_ry(old(state)@, *instruction),
        final(state)@.wf(),
        final(state).ready() == old(state).ready(),
        r is Ok,
{
    let (rx, ry) = rx_ry(instruction);
    let result: i16 = state.registers[rx] ^ state.registers[ry];
    state.registers[rx] = result;
    set_flags_z_n(&mut state.flags, result);
    Ok(())
}

/// `XOR rx, ry, rz`. `R[z]` becomes `R[x]` XOR `R[y]`; Z and N are set.
pub fn xor_rx_ry_rz(state: &mut CPU, instruction: &Instruction) -> (r: Result<(), String>)
    requires
        old(state)@.wf(),
    ensures
        final(state)@ == after_xor_rx_ry_rz(old(state)@, *instruction),
        final(state)@.wf(),
        final(state).ready() == old(state).ready(),
        r is Ok,
{
    let (rx, ry, rz) = rx_ry_rz(instruction);
    let result: i16 = state.registers[rx] ^ state.registers[ry];
    state.registers[rz] = result;
    set_flags_z_n(&mut state.flags, result);
    Ok(())
}

/// `MULI rx, HHLL`. `R[x]` becomes `R[x]` times the immediate; C, Z and N are
/// set.
pub fn muli_rx_hhll(state: &mut CPU, instruction: &Instruction) -> (r: Result<(), String>)
    requires
        old(state)@.wf(),
    ensures
        final(state)@ == after_muli_rx_hhll(old(state)@, *instruction),
        final(state)@.wf(),
        final(state).ready() == old(state).ready(),
        r is Ok,
{
    let (rx, _) = rx_ry(instruction);
    let val: i16 = imm(instruction);
    let result: i16 = op_mul(&mut state.flags, state.registers[rx], val);
    state.registers[rx] = result;
    Ok(())
}

/// `MUL rx, ry`. `R[x]` becomes `R[x]` times `R[y]`; C, Z and N are set.
pub fn mul_rx_ry(state: &mut CPU, instruction: &Instruction) -> (r: Result<(), String>)
    requires
        old(state)@.wf(),
    ensures
        final(state)@ == after_mul_rx_ry(old(state)@, *instruction),
        final(state)@.wf(),
        final(state).ready() == old(state).ready(),
        r is Ok,
{
    let (rx, ry) = rx_ry(instruction);
    let val: i16 = state.registers[ry];
    let result: i16 = op_mul(&mut state.flags, state.registers[rx], val);
    state.registers[rx] = result;
    Ok(())
}

/// `MUL rx, ry, rz`. `R[z]` becomes `R[x]` times `R[y]`; C, Z and N are set.
pub fn mul_rx_ry_rz(state: &mut CPU, instruction: &Instruction) -> (r: Result<(), String>)
    requires
        old(state)@.wf(),
    ensures
        final(state)@ == after_mul_rx_ry_rz(old(state)@, *instruction),
        final(state)@.wf(),
        final(state).ready() == old(state).ready(),
        r is Ok,
{
    let (rx, ry, rz) = rx_ry_rz(instruction);
    let val: i16 = state.registers[ry];
    let result: i16 = op_mul(&mut state.flags, state.registers[rx], val);
    state.registers[rz] = result;
    Ok(())
}

/// `DIVI rx, HHLL`. `R[x]` becomes `R[x]` divided by the immediate, rounded
/// toward zero; C, Z and N are set. A zero divisor is an error and changes
/// nothing.
pub fn divi_rx_hhll(state: &mut CPU, instruction: &Instruction) -> (r: Result<(), String>)
    requires
        old(state)@.wf(),
    ensures
        final(state)@ == after_divi_rx_hhll(old(state)@, *instruction),
        final(state)@.wf(),
        final(state).ready() == old(state).ready(),
        r is Err <==> imm_of(*instruction) == 0,
        r matches Err(e) ==> e@ == fault_message(Fault::DivisionByZero),
{
    let (rx, _) = rx_ry(instruction);
    let val: i16 = imm(instruction);
    if val == 0 {
        return Err("Division by zero".to_owned());
    }
    let result: i16 = op_div(&mut state.flags, state.registers[rx], val);
    state.registers[rx] = result;
    Ok(())
}

/// `DIV rx, ry`. `R[x]` becomes `R[x]` divided by `R[y]`, rounded toward zero;
/// C, Z and N are set. A zero divisor is an error and changes nothing.
pub fn div_rx_ry(state: &mut CPU, instruction: &Instruction) -> (r: Result<(), String>)
    requires
        old(state)@.wf(),
    ensures
        final(state)@ == after_div_rx_ry(old(state)@, *instruction),
        final(state)@.wf(),
        final(state).ready() == old(state).ready(),
        r is Err <==> old(state)@.registers[ry_of(*instruction)] == 0,
        r matches Err(e) ==> e@ == fault_message(Fault::DivisionByZero),
{
    let (rx, ry) = rx_ry(instruction);
    let val: i16 = state.registers[ry];
    if val == 0 {
        return Err("Division by zero".to_owned());
    }
    let result: i16 = op_div(&mut state.flags, state.registers[rx], val);
    state.registers[rx] = result;
    Ok(())
}

/// `DIV rx, ry, rz`. `R[z]` becomes `R[x]` divided by `R[y]`, rounded toward
/// zero; C, Z and N are set. A zero divisor is an error and changes nothing.
pub fn div_rx_ry_rz(state: &mut CPU, instruction: &Instruction) -> (r: Result<(), String>)
    requires
        old(state)@.wf(),
    ensures
        final(state)@ == after_div_rx_ry_rz(old(state)@, *instruction),
        final(state)@.wf(),
        final(state).ready() == old(state).ready(),
        r is Err <==> old(state)@.registers[ry_of(*instruction)] == 0,
        r matches Err(e) ==> e@ == fault_message(Fault::DivisionByZero),
{
    let (rx, ry, rz) = rx_ry_rz(instruction);
    let val: i16 = state.registers[ry];
    if val == 0 {
        return Err("Division by zero".to_owned());
    }
    let result: i16 = op_div(&mut state.flags, state.registers[rx], val);
    state.registers[rz] = result;
    Ok(())
}

/// `MODI rx, HHLL`. `R[x]` becomes `R[x]` modulo the immediate, with the sign
/// of the divisor; Z and N are set. A zero divisor is an error and changes
/// nothing.
pub fn modi_rx_hhll(state: &mut CPU, instruction: &Instruction) -> (r: Result<(), String>)
    requires
        old(state)@.wf(),
    ensures
        final(state)@ == after_modi_rx_hhll(old(state)@, *instruction),
        final(state)@.wf(),
        final(state).ready() == old(state).ready(),
        r is Err <==> imm_of(*instruction) == 0,
        r matches Err(e) ==> e@ == fault_message(Fault::DivisionByZero),
{
    let (rx, _) = rx_ry(instruction);
    let val: i16 = imm(instruction);
    if val == 0 {
        return Err("Division by zero".to_owned());
    }
    let result: i16 = op_mod(&mut state.flags, state.registers[rx], val);
    state.registers[rx] = result;
    Ok(())
}

/// `MOD rx, ry`. `R[x]` becomes `R[x]` modulo `R[y]`, with the sign of the
/// divisor; Z and N are set. A zero divisor is an error and changes nothing.
pub fn mod_rx_ry(state: &mut CPU, instruction: &Instruction) -> (r: Result<(), String>)
    requires
        old(state)@.wf(),
    ensures
        final(state)@ == after_mod_rx_ry(old(state)@, *instruction),
        final(state)@.wf(),
        final(state).ready() == old(state).ready(),
        r is Err <==> old(state)@.registers[ry_of(*instruction)] == 0,
        r matches Err(e) ==> e@ == fault_message(Fault::DivisionByZero),
{
    let (rx, ry) = rx_ry(instruction);
    let val: i16 = state.registers[ry];
    if val == 0 {
        return Err("Division by zero".to_owned());
    }
    let result: i16 = op_mod(&mut state.flags, state.registers[rx], val);
    state.registers[rx] = result;
    Ok(())
}

/// `MOD rx, ry, rz`. `R[z]` becomes `R[x]` modulo `R[y]`, with the sign of the
/// divisor; Z and N are set. A zero divisor is an error and changes nothing.
pub fn mod_rx_ry_rz(state: &mut CPU, instruction: &Instruction) -> (r: Result<(), String>)
    requires
        old(state)@.wf(),
    ensures
        final(state)@ == after_mod_rx_ry_rz(old(state)@, *instruction),
        final(state)@.wf(),
        final(state).ready() == old(state).ready(),
        r is Err <==> old(state)@.registers[ry_of(*instruction)] == 0,
        r matches Err(e) ==> e@ == fault_message(Fault::DivisionByZero),
{
    let (rx, ry, rz) = rx_ry_rz(instruction);
    let val: i16 = state.registers[ry];
    if val == 0 {
        return Err("Division by zero".to_owned());
    }
    let result: i16 = op_mod(&mut state.flags, state.registers[rx], val);
    state.registers[rz] = result;
    Ok(())
}

/// `REMI rx, HHLL`. `R[x]` becomes the remainder of `R[x]` by the immediate,
/// with the sign of the dividend; Z and N are set. A zero divisor is an error
/// and changes nothing.
pub fn remi_rx_hhll(state: &mut CPU, instruction: &Instruction) -> (r: Result<(), String>)
    requires
        old(state)@.wf(),
    ensures
        final(state)@ == after_remi_rx_hhll(old(state)@, *instruction),
        final(state)@.wf(),
        final(state).ready() == old(state).ready(),
        r is Err <==> imm_of(*instruction) == 0,
        r matches Err(e) ==> e@ == fault_message(Fault::DivisionByZero),
{
    let (rx, _) = rx_ry(instruction);
    let val: i16 = imm(instruction);
    if val == 0 {
        return Err("Division by zero".to_owned());
    }
    let result: i16 = op_rem(&mut state.flags, state.registers[rx], val);
    state.registers[rx] = result;
    Ok(())
}

/// `REM rx, ry`. `R[x]` becomes the remainder of `R[x]` by `R[y]`, with the
/// sign of the dividend; Z and N are set. A zero divisor is an error and
/// changes nothing.
pub fn rem_rx_ry(state: &mut CPU, instruction: &Instruction) -> (r: Result<(), String>)
    requires
        old(state)@.wf(),
    ensures
        final(state)@ == after_rem_rx_ry(old(state)@, *instruction),
        final(state)@.wf(),
        final(state).ready() == old(state).ready(),
        r is Err <==> old(state)@.registers[ry_of(*instruction)] == 0,
        r matches Err(e) ==> e@ == fault_message(Fault::DivisionByZero),
{
    let (rx, ry) = rx_ry(instruction);
    let val: i16 = state.registers[ry];
    if val == 0 {
        return Err("Division by zero".to_owned());
    }
    let result: i16 = op_rem(&mut state.flags, state.registers[rx], val);
    state.registers[rx] = result;
    Ok(())
}

/// `REM rx, ry, rz`. `R[z]` becomes the remainder of `R[x]` by `R[y]`, with the
/// sign of the dividend; Z and N are set. A zero divisor is an error and
/// changes nothing.
pub fn rem_rx_ry_rz(state: &mut CPU, instruction: &Instruction) -> (r: Result<(), String>)
    requires
        old(state)@.wf(),
    ensures
        final(state)@ == after_rem_rx_ry_rz(old(state)@, *instruction),
        final(state)@.wf(),
        final(state).ready() == old(state).ready(),
        r is Err <==> old(state)@.registers[ry_of(*instruction)] == 0,
        r matches Err(e) ==> e@ == fault_message(Fault::DivisionByZero),
{
    let (rx, ry, rz) = rx_ry_rz(instruction);
    let val: i16 = state.registers[ry];
    if val == 0 {
        return Err("Division by zero".to_owned());
    }
    let result: i16 = op_rem(&mut state.flags, state.registers[rx], val);
    state.registers[rz] = result;
    Ok(())
}

/// `SHL rx, n`. `R[x]` is shifted left, by the count in the low nibble of byte
/// 2; Z and N are set.
pub fn shl_rx_n(state: &mut CPU, instruction: &Instruction) -> (r: Result<(), String>)
    requires
        old(state)@.wf(),
    ensures
        final(state)@ == after_shl_rx_n(old(state)@, *instruction),
        final(state)@.wf(),
        final(state).ready() == old(state).ready(),
        r is Ok,
{
    let rx: usize = rx(instruction);
    let count: u8 = n(instruction);
    let result: i16 = op_shl(&mut state.flags, state.registers[rx], count);
    state.registers[rx] = result;
    Ok(())
}

/// `SHR rx, n`. `R[x]` is shifted right, zeros coming in, by the count in the
/// low nibble of byte 2; Z and N are set.
pub fn shr_rx_n(state: &mut CPU, instruction: &Instruction) -> (r: Result<(), String>)
    requires
        old(state)@.wf(),
    ensures
        final(state)@ == after_shr_rx_n(old(state)@, *instruction),
        final(state)@.wf(),
        final(state).ready() == old(state).ready(),
        r is Ok,
{
    let rx: usize = rx(instruction);
    let count: u8 = n(instruction);
    let result: i16 = op_shr(&mut state.flags, state.registers[rx], count);
    state.registers[rx] = result;
    Ok(())
}

/// `SAR rx, n`. `R[x]` is shifted right, the sign bit coming in, by the count
/// in the low nibble of byte 2; Z and N are set.
pub fn sar_rx_n(state: &mut CPU, instruction: &Instruction) -> (r: Result<(), String>)
    requires
        old(state)@.wf(),
    ensures
        final(state)@ == after_sar_rx_n(old(state)@, *instruction),
        final(state)@.wf(),
        final(state).ready() == old(state).ready(),
        r is Ok,
{
    let rx: usize = rx(instruction);
    let count: u8 = n(instruction);
    let result: i16 = op_sar(&mut state.flags, state.registers[rx], count);
    state.registers[rx] = result;
    Ok(())
}

/// `SHL rx, ry`. `R[x]` is shifted left, by the low four bits of `R[y]`; Z and
/// N are set.
pub fn shl_rx_ry(state: &mut CPU, instruction: &Instruction) -> (r: Result<(), String>)
    requires
        old(state)@.wf(),
    ensures
        final(state)@ == after_shl_rx_ry(old(state)@, *instruction),
        final(state)@.wf(),
        final(state).ready() == old(state).ready(),
        r is Ok,
{
    let (rx, ry) = rx_ry(instruction);
    let count: u8 = count_of(state.registers[ry]);
    let result: i16 = op_shl(&mut state.flags, state.registers[rx], count);
    state.registers[rx] = result;
    Ok(())
}

/// `SHR rx, ry`. `R[x]` is shifted right, zeros coming in, by the low four bits
/// of `R[y]`; Z and N are set.
pub fn shr_rx_ry(state: &mut CPU, instruction: &Instruction) -> (r: Result<(), String>)
    requires
        old(state)@.wf(),
    ensures
        final(state)@ == after_shr_rx_ry(old(state)@, *instruction),
        final(state)@.wf(),
        final(state).ready() == old(state).ready(),
        r is Ok,
{
    let (rx, ry) = rx_ry(instruction);
    let count: u8 = count_of(state.registers[ry]);
    let result: i16 = op_shr(&mut state.flags, state.registers[rx], count);
    state.registers[rx] = result;
    Ok(())
}

/// `SAR rx, ry`. `R[x]` is shifted right, the sign bit coming in, by the low
/// four bits of `R[y]`; Z and N are set.
pub fn sar_rx_ry(state: &mut CPU, instruction: &Instruction) -> (r: Result<(), String>)
    requires
        old(state)@.wf(),
    ensures
        final(state)@ == after_sar_rx_ry(old(state)@, *instruction),
        final(state)@.wf(),
        final(state).ready() == old(state).ready(),
        r is Ok,
{
    let (rx, ry) = rx_ry(instruction);
    let count: u8 = count_of(state.registers[ry]);
    let result: i16 = op_sar(&mut state.flags, state.registers[rx], count);
    state.registers[rx] = result;
    Ok(())
}

/// `NOTI rx, HHLL`. `R[x]` becomes the complement of the immediate; Z and N are
/// set.
pub fn noti_rx_hhll(state: &mut CPU, instruction: &Instruction) -> (r: Result<(), String>)
    requires
        old(state)@.wf(),
    ensures
        final(state)@ == after_noti_rx_hhll(old(state)@, *instruction),
        final(state)@.wf(),
        final(state).ready() == old(state).ready(),
        r is Ok,
{
    let (rx, _) = rx_ry(instruction);
    let result: i16 = op_not(&mut state.flags, imm(instruction));
    state.registers[rx] = result;
    Ok(())
}

/// `NOT rx`. `R[x]` becomes the complement of itself; Z and N are set.
pub fn not_rx(state: &mut CPU, instruction: &Instruction) -> (r: Result<(), String>)
    requires
        old(state)@.wf(),
    ensures
        final(state)@ == after_not_rx(old(state)@, *instruction),
        final(state)@.wf(),
        final(state).ready() == old(state).ready(),
        r is Ok,
{
    let (rx, _) = rx_ry(instruction);
    let result: i16 = op_not(&mut state.flags, state.registers[rx]);
    state.registers[rx] = result;
    Ok(())
}

/// `NOT rx, ry`. `R[x]` becomes the complement of `R[y]`; Z and N are set.
pub fn not_rx_ry(state: &mut CPU, instruction: &Instruction) -> (r: Result<(), String>)
    requires
        old(state)@.wf(),
    ensures
        final(state)@ == after_not_rx_ry(old(state)@, *instruction),
        final(state)@.wf(),
        final(state).ready() == old(state).ready(),
        r is Ok,
{
    let (rx, ry) = rx_ry(instruction);
    let result: i16 = op_not(&mut state.flags, state.registers[ry]);
    state.registers[rx] = result;
    Ok(())
}

/// `NEGI rx, HHLL`. `R[x]` becomes the negation of the immediate; Z and N are
/// set.
pub fn negi_rx_hhll(state: &mut CPU, instruction: &Instruction) -> (r: Result<(), String>)
    requires
        old(state)@.wf(),
    ensures
        final(state)@ == after_negi_rx_hhll(old(state)@, *instruction),
        final(state)@.wf(),
        final(state).ready() == old(state).ready(),
        r is Ok,
{
    let (rx, _) = rx_ry(instruction);
    let result: i16 = op_neg(&mut state.flags, imm(instruction));
    state.registers[rx] = result;
    Ok(())
}

/// `NEG rx`. `R[x]` becomes the negation of itself; Z and N are set.
pub fn neg_rx(state: &mut CPU, instruction: &Instruction) -> (r: Result<(), String>)
    requires
        old(state)@.wf(),
    ensures
        final(state)@ == after_neg_rx(old(state)@, *instruction),
        final(state)@.wf(),
        final(state).ready() == old(state).ready(),
        r is Ok,
{
    let (rx, _) = rx_ry(instruction);
    let result: i16 = op_neg(&mut state.flags, state.registers[rx]);
    state.registers[rx] = result;
    Ok(())
}

/// `NEG rx, ry`. `R[x]` becomes the negation of `R[y]`; Z and N are set.
pub fn neg_rx_ry(state: &mut CPU, instruction: &Instruction) -> (r: Result<(), String>)
    requires
        old(state)@.wf(),
    ensures
        final(state)@ == after_neg_rx_ry(old(state)@, *instruction),
        final(state)@.wf(),
        final(state).ready() == old(state).ready(),
        r is Ok,
{
    let (rx, ry) = rx_ry(instruction);
    let result: i16 = op_neg(&mut state.flags, state.registers[ry]);
    state.registers[rx] = result;
    Ok(())
}

} // verus!
