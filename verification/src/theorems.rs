//! What holds of the instruction set as a whole: statements about every
//! state and every instruction, proved from the definitions of the
//! instructions.

use vstd::prelude::*;
use crate::alu::sub_flags;
use crate::flags::{cond_holds, lemma_flags_byte_round_trip};
use crate::graphics::{all_indices, drawn_screen, sprite_over, GPU};
use crate::instruction::{hhll_of, opcode_byte, rx_of, ry_of, rz_of, Instruction};
use crate::machine::stepped;
use crate::semantics::{
    after, lemma_after_keeps_pc, lemma_selects_call_hhll, lemma_selects_call_rx,
    lemma_selects_cx_hhll, lemma_selects_drw_rx_ry_hhll, lemma_selects_drw_rx_ry_rz,
    lemma_selects_ldm_rx_hhll, lemma_selects_ldm_rx_ry, lemma_selects_popall,
    lemma_selects_popf, lemma_selects_pushall, lemma_selects_pushf, lemma_selects_ret,
    lemma_selects_stm_rx_hhll, lemma_selects_stm_rx_ry, sets_pc,
};
use crate::state::{
    popped_registers, pushed_mem, register_byte, store_word, word_at, CpuState,
};
use crate::word::{lemma_signed_unsigned, unsigned, wrap16};

verus! {

/// A step on an instruction that is no jump, call, return or `VBLNK` moves
/// the program counter on by exactly four, wrapping at the end of memory.
/// This holds of opcodes that name no instruction and of instructions that
/// fault, too.
pub proof fn theorem_step_advances_pc(s: CpuState, random: u16)
    requires
        !sets_pc(s.fetched()),
    ensures
        stepped(s, random).pc == wrap16(s.pc + 4),
        s.pc <= 0xFFFB ==> stepped(s, random).pc == s.pc + 4,
{
    lemma_after_keeps_pc(s.with_pc(wrap16(s.pc + 4)), s.fetched(), random);
}

/// A sprite draw changes a pixel only to a palette index from 1 to 15, and
/// a screen of palette indices stays one.
pub proof fn theorem_draw_writes_indices(
    screen: Seq<u8>,
    mem: Seq<u8>,
    gpu: GPU,
    x: i16,
    y: i16,
    addr: u16,
)
    requires
        screen.len() == 76800,
        mem.len() == 0x10000,
    ensures
        forall|i: int|
            0 <= i < 76800 && #[trigger] drawn_screen(screen, mem, gpu, x, y, addr)[i] != screen[i]
                ==> 1 <= drawn_screen(screen, mem, gpu, x, y, addr)[i] <= 15,
        all_indices(screen) ==> all_indices(drawn_screen(screen, mem, gpu, x, y, addr)),
{
    let d = drawn_screen(screen, mem, gpu, x, y, addr);
    assert forall|i: int| 0 <= i < 76800 implies #[trigger] d[i] == screen[i] || 1 <= d[i]
        <= 15 by {
        let v = sprite_over(mem, gpu, x, y, addr, i % 320, i / 320);
        assert(v <= 15);
    }
}

/// The instruction `DRW`, in both its forms, changes a pixel only to a
/// palette index from 1 to 15.
pub proof fn theorem_drw_writes_indices(s: CpuState, i: Instruction, random: u16)
    requires
        s.wf(),
        opcode_byte(i) == 0x05 || opcode_byte(i) == 0x06,
    ensures
        forall|k: int|
            0 <= k < 76800 && #[trigger] after(s, i, random).screen[k] != s.screen[k] ==> 1
                <= after(s, i, random).screen[k] <= 15,
{
    if opcode_byte(i) == 0x05 {
        lemma_selects_drw_rx_ry_hhll(s, i, random);
    } else {
        lemma_selects_drw_rx_ry_rz(s, i, random);
    }
    let a = s.registers[rx_of(i)];
    let b = s.registers[ry_of(i)];
    theorem_draw_writes_indices(s.screen, s.mem, s.graphics, a, b, hhll_of(i));
    theorem_draw_writes_indices(
        s.screen,
        s.mem,
        s.graphics,
        a,
        b,
        unsigned(s.registers[rz_of(i)]) as u16,
    );
}

/// After a subtraction or comparison of `a` with `b` the conditions order
/// the two: Z says that they are equal, C that `a` is the smaller one as an
/// unsigned word, and `O != N` that `a` is the smaller one as a signed
/// number, also where the difference does not fit a register.
pub proof fn theorem_compare_orders(a: i16, b: i16)
    ensures
        cond_holds(sub_flags(a, b), 0x0) == (a == b),
        cond_holds(sub_flags(a, b), 0x1) == (a != b),
        cond_holds(sub_flags(a, b), 0x7) == (unsigned(a) > unsigned(b)),
        cond_holds(sub_flags(a, b), 0x8) == (unsigned(a) >= unsigned(b)),
        cond_holds(sub_flags(a, b), 0x9) == (unsigned(a) < unsigned(b)),
        cond_holds(sub_flags(a, b), 0xA) == (unsigned(a) <= unsigned(b)),
        cond_holds(sub_flags(a, b), 0xB) == (a > b),
        cond_holds(sub_flags(a, b), 0xC) == (a >= b),
        cond_holds(sub_flags(a, b), 0xD) == (a < b),
        cond_holds(sub_flags(a, b), 0xE) == (a <= b),
{
}

/// Whether `i` is a call that is taken in state `s`: `CALL HHLL`, `CALL rx`,
/// or `Cx HHLL` with a condition that holds.
pub open spec fn calls(s: CpuState, i: Instruction) -> bool {
    ||| opcode_byte(i) == 0x14
    ||| opcode_byte(i) == 0x18
    ||| (opcode_byte(i) == 0x17 && rx_of(i) < 15 && cond_holds(s.flags, rx_of(i)))
}

/// A call followed by `RET` brings the program counter and the stack
/// pointer back to what they were when the call was executed: the program
/// counter is then the address of the instruction after the call.
pub proof fn theorem_call_ret(s: CpuState, call: Instruction, ret: Instruction, random: u16)
    requires
        s.wf(),
        calls(s, call),
        opcode_byte(ret) == 0x15,
    ensures
        after(after(s, call, random), ret, random).pc == s.pc,
        after(after(s, call, random), ret, random).sp == s.sp,
{
    if opcode_byte(call) == 0x14 {
        lemma_selects_call_hhll(s, call, random);
    } else if opcode_byte(call) == 0x18 {
        lemma_selects_call_rx(s, call, random);
    } else {
        lemma_selects_cx_hhll(s, call, random);
    }
    lemma_selects_ret(after(s, call, random), ret, random);
    lemma_word_round_trip(s.mem, s.sp as int, s.pc);
}

/// A word stored at an address is the word read there.
pub proof fn lemma_word_round_trip(mem: Seq<u8>, a: int, w: u16)
    requires
        mem.len() == 0x10000,
    ensures
        word_at(store_word(mem, a, w), a) == w,
{
}

/// `PUSHF` followed by `POPF` restores the four flags and the stack
/// pointer.
pub proof fn theorem_pushf_popf(s: CpuState, pushf: Instruction, popf: Instruction, random: u16)
    requires
        s.wf(),
        opcode_byte(pushf) == 0xC4,
        opcode_byte(popf) == 0xC5,
    ensures
        after(after(s, pushf, random), popf, random).flags == s.flags,
        after(after(s, pushf, random), popf, random).sp == s.sp,
{
    lemma_selects_pushf(s, pushf, random);
    lemma_selects_popf(after(s, pushf, random), popf, random);
    lemma_flags_byte_round_trip(s.flags);
}

/// The registers popped from a block that was just pushed are the
/// registers that were pushed, whatever the registers held in between.
pub proof fn lemma_pushed_popped(mem: Seq<u8>, sp: u16, pushed: Seq<i16>, held: Seq<i16>)
    requires
        mem.len() == 0x10000,
        pushed.len() == 16,
        held.len() == 16,
    ensures
        popped_registers(pushed_mem(mem, sp, pushed, 16), wrap16(sp + 32), held, 16) == pushed,
{
    let block = pushed_mem(mem, sp, pushed, 16);
    let top = wrap16(sp + 32);
    let popped = popped_registers(block, top, held, 16);
    assert forall|r: int| 0 <= r < 16 implies popped[r] == pushed[r] by {
        let a = top - 2 * (16 - r);
        let low = (sp + 2 * r) % 0x10000;
        let high = (sp + 2 * r + 1) % 0x10000;
        assert(a % 0x10000 == low);
        assert((a + 1) % 0x10000 == high);
        assert((low - sp) % 0x10000 == 2 * r);
        assert((high - sp) % 0x10000 == 2 * r + 1);
        assert(block[low] == register_byte(pushed, 2 * r));
        assert(block[high] == register_byte(pushed, 2 * r + 1));
        assert(word_at(block, a) == unsigned(pushed[r]));
        lemma_signed_unsigned(pushed[r]);
    }
    assert(popped =~= pushed);
}

/// `PUSHALL` followed by `POPALL` restores all sixteen registers and the
/// stack pointer.
pub proof fn theorem_pushall_popall(
    s: CpuState,
    pushall: Instruction,
    popall: Instruction,
    random: u16,
)
    requires
        s.wf(),
        opcode_byte(pushall) == 0xC2,
        opcode_byte(popall) == 0xC3,
    ensures
        after(after(s, pushall, random), popall, random).registers == s.registers,
        after(after(s, pushall, random), popall, random).sp == s.sp,
{
    lemma_selects_pushall(s, pushall, random);
    lemma_selects_popall(after(s, pushall, random), popall, random);
    lemma_pushed_popped(s.mem, s.sp, s.registers, s.registers);
}

/// `STM rx, HHLL` followed by `LDM ry, HHLL` with the same address leaves
/// in the register loaded what the register stored held; and so do the
/// forms that take the address from a register, where both name the same
/// address register.
pub proof fn theorem_stm_ldm(s: CpuState, stm: Instruction, ldm: Instruction, random: u16)
    requires
        s.wf(),
        (opcode_byte(stm) == 0x30 && opcode_byte(ldm) == 0x22 && hhll_of(stm) == hhll_of(ldm)) || (
        opcode_byte(stm) == 0x31 && opcode_byte(ldm) == 0x23 && ry_of(stm) == ry_of(ldm)),
    ensures
        after(after(s, stm, random), ldm, random).registers[rx_of(ldm)] == s.registers[rx_of(stm)],
{
    lemma_signed_unsigned(s.registers[rx_of(stm)]);
    if opcode_byte(stm) == 0x30 {
        lemma_selects_stm_rx_hhll(s, stm, random);
        lemma_selects_ldm_rx_hhll(after(s, stm, random), ldm, random);
        lemma_word_round_trip(s.mem, hhll_of(stm) as int, unsigned(s.registers[rx_of(stm)]) as u16);
    } else {
        lemma_selects_stm_rx_ry(s, stm, random);
        lemma_selects_ldm_rx_ry(after(s, stm, random), ldm, random);
        lemma_word_round_trip(
            s.mem,
            unsigned(s.registers[ry_of(stm)]),
            unsigned(s.registers[rx_of(stm)]) as u16,
        );
    }
}

/// The address that a store instruction writes to: the immediate of
/// `STM rx, HHLL`, the register `R[y]` of `STM rx, ry`.
pub open spec fn store_address(s: CpuState, i: Instruction) -> int {
    if opcode_byte(i) == 0x30 {
        hhll_of(i) as int
    } else {
        unsigned(s.registers[ry_of(i)])
    }
}

/// After a store of the value `v`, the byte at the address is the low byte
/// of `v` and the byte after it, wrapping at the end of memory, its high
/// byte.
pub proof fn theorem_stm_little_endian(s: CpuState, stm: Instruction, random: u16)
    requires
        s.wf(),
        opcode_byte(stm) == 0x30 || opcode_byte(stm) == 0x31,
    ensures
        ({
            let v = unsigned(s.registers[rx_of(stm)]) as u16;
            let a = store_address(s, stm);
            let mem = after(s, stm, random).mem;
            &&& mem[a] == v & 0xFF
            &&& mem[(a + 1) % 0x10000] == v >> 8
            &&& forall|k: int| 0 <= k < 0x10000 && k != a && k != (a + 1) % 0x10000 ==> mem[k] == s.mem[k]
        }),
{
    if opcode_byte(stm) == 0x30 {
        lemma_selects_stm_rx_hhll(s, stm, random);
    } else {
        lemma_selects_stm_rx_ry(s, stm, random);
    }
    let v = unsigned(s.registers[rx_of(stm)]) as u16;
    assert(v & 0xFF == v % 256 && v >> 8 == v / 256) by (bit_vector);
}

} // verus!
