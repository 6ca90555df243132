//! Running the machine: fetching and dispatching instructions, counting
//! them into frames, and what happens at a frame boundary.
//!
//! The machine does not wait, draw or read keys itself. `step` executes one
//! instruction and tells whether a frame boundary was reached; whoever runs
//! the machine then presents the screen, sleeps for `frame_sleep_nanos`
//! and hands the key events of the frame to `end_frame`.

use vstd::prelude::*;
use crate::arith::{
    add_rx_ry, add_rx_ry_rz, addi_rx_hhll, and_rx_ry, and_rx_ry_rz, andi_rx_hhll, cmp_rx_ry,
    cmpi_rx_hhll, div_rx_ry, div_rx_ry_rz, divi_rx_hhll, mod_rx_ry, mod_rx_ry_rz, modi_rx_hhll,
    mul_rx_ry, mul_rx_ry_rz, muli_rx_hhll, neg_rx, neg_rx_ry, negi_rx_hhll, not_rx, not_rx_ry,
    noti_rx_hhll, or_rx_ry, or_rx_ry_rz, ori_rx_hhll, rem_rx_ry, rem_rx_ry_rz, remi_rx_hhll,
    sar_rx_n, sar_rx_ry, shl_rx_n, shl_rx_ry, shr_rx_n, shr_rx_ry, sub_rx_ry, sub_rx_ry_rz,
    subi_rx_hhll, tst_rx_ry, tsti_rx_hhll, xor_rx_ry, xor_rx_ry_rz, xori_rx_hhll,
};
use crate::audio::{AudioState, WaveRequest};
use crate::cpu::CPU;
use crate::flags::FLAGS;
use crate::flow::{
    call_hhll, call_rx, cx_hhll, jmc_hhll, jme_rx_ry_hhll, jmp_hhll, jmp_rx, jx_hhll, ret,
};
use crate::graphics::GPU;
use crate::instruction::{hhll_of, opcode_byte, Instruction};
use crate::memory::{
    ldi_rx_hhll, ldi_sp_hhll, ldm_rx_hhll, ldm_rx_ry, mov_rx_ry, pal_hhll, pal_rx, pop_rx, popall,
    popf, push_rx, pushall, pushf, stm_rx_hhll, stm_rx_ry,
};
use crate::opcode::{decode, opcode_of, opcode_table, Opcode};
use crate::semantics::{
    after, after_arith, after_flow, after_memory, after_rnd_rx_hhll, after_system, fault_message,
    fault_of, lemma_after_keeps_frame, Fault,
};
use crate::state::{CpuState, FRAME_CYCLES};
use crate::system::{
    bgc_n, cls, drw_rx_ry_hhll, drw_rx_ry_rz, error, flip, nop, rnd_rx_hhll, snd0, snd1_hhll,
    snd2_hhll, snd3_hhll, sng_ad_vtsr, snp_rx_hhll, spr_hhll, store_random, vblnk,
};
use crate::word::wrap16;

verus! {

/// The length of a frame in nanoseconds: a sixtieth of a second.
pub const FRAME_NANOS: u128 = 16_666_666;

/// A button of the first controller.
#[derive(Clone, Copy, Debug, PartialEq, Eq, Structural)]
pub enum Button {
    Up,
    Down,
    Left,
    Right,
    Select,
    Start,
    A,
    B,
}

/// The bit of the controller byte that a button holds: bit 0 for `Up` up
/// to bit 7 for `B`.
pub open spec fn button_mask_of(button: Button) -> u8 {
    match button {
        Button::Up => 0x01,
        Button::Down => 0x02,
        Button::Left => 0x04,
        Button::Right => 0x08,
        Button::Select => 0x10,
        Button::Start => 0x20,
        Button::A => 0x40,
        Button::B => 0x80,
    }
}

/// The bit of the controller byte that a button holds.
pub fn button_mask(button: Button) -> (r: u8)
    ensures
        r == button_mask_of(button),
{
    match button {
        Button::Up => 0x01,
        Button::Down => 0x02,
        Button::Left => 0x04,
        Button::Right => 0x08,
        Button::Select => 0x10,
        Button::Start => 0x20,
        Button::A => 0x40,
        Button::B => 0x80,
    }
}

/// How long to sleep at a frame boundary when `elapsed_nanos` have passed
/// since the last one: what is left of the frame, or nothing.
pub fn frame_sleep_nanos(elapsed_nanos: u128) -> (r: u128)
    ensures
        elapsed_nanos < FRAME_NANOS ==> r == FRAME_NANOS - elapsed_nanos,
        elapsed_nanos >= FRAME_NANOS ==> r == 0,
{
    if elapsed_nanos < FRAME_NANOS {
        FRAME_NANOS - elapsed_nanos
    } else {
        0
    }
}

/// The state after the fetch: the program counter has moved on to the next
/// instruction.
pub open spec fn advanced(s: CpuState) -> CpuState {
    s.with_pc(wrap16(s.pc + 4))
}

/// The fault that the next step raises, if it raises one.
pub open spec fn step_fault(s: CpuState) -> Option<Fault> {
    fault_of(advanced(s), s.fetched())
}

/// The state after one step: fetch at the program counter, advance it by
/// four, execute, count the instruction. A step that faults counts nothing.
pub open spec fn stepped(s: CpuState, random: u16) -> CpuState {
    let t = after(advanced(s), s.fetched(), random);
    if step_fault(s) is Some {
        t
    } else {
        t.ticked()
    }
}

/// The state after a finished tone was looked for, `elapsed_nanos` after
/// it started: a tone that has outlasted its envelope is stopped.
pub open spec fn audio_polled(s: CpuState, elapsed_nanos: u128) -> CpuState {
    if s.audio.finished_after(elapsed_nanos) {
        s.with_audio(s.audio.after_clear())
    } else {
        s
    }
}

/// The controller byte after the buttons of `buttons` went down, in order.
pub open spec fn pressed_all(held: u8, buttons: Seq<Button>) -> u8
    decreases buttons.len(),
{
    if buttons.len() == 0 {
        held
    } else {
        pressed_all(held, buttons.drop_last()) | button_mask_of(buttons.last())
    }
}

/// The controller byte after the buttons of `buttons` went up, in order.
pub open spec fn released_all(held: u8, buttons: Seq<Button>) -> u8
    decreases buttons.len(),
{
    if buttons.len() == 0 {
        held
    } else {
        released_all(held, buttons.drop_last()) & !button_mask_of(buttons.last())
    }
}

/// The first controller's byte set to `held`.
pub open spec fn holding(s: CpuState, held: u8) -> CpuState {
    CpuState { controls: s.controls.update(0, held), ..s }
}

/// The state after a frame boundary: a finished tone is stopped; the
/// buttons that went down are set and the controller bytes written to
/// memory; only then are the buttons that went up cleared, so that a button
/// pressed and let go within one frame is seen once.
pub open spec fn frame_ended(
    s: CpuState,
    audio_elapsed_nanos: u128,
    pressed: Seq<Button>,
    released: Seq<Button>,
) -> CpuState {
    let polled = audio_polled(s, audio_elapsed_nanos);
    let down = pressed_all(polled.controls[0], pressed);
    let latched = holding(polled, down).controls_latched();
    holding(latched, released_all(down, released))
}


/// Runs the handler of a video or sound instruction.
fn dispatch_system(
    state: &mut CPU,
    op: Opcode,
    instruction: &Instruction,
    random: u16,
) -> (r: Result<(), String>)
    requires
        old(state)@.wf(),
        op == opcode_of(opcode_byte(*instruction)),
        opcode_byte(*instruction) < 0x10,
    ensures
        final(state)@ == after_system(old(state)@, *instruction, random),
        final(state)@.wf(),
        final(state).ready() == old(state).ready(),
        r is Err <==> fault_of(old(state)@, *instruction) is Some,
        r matches Err(e) ==> fault_of(old(state)@, *instruction) matches Some(f) && e@
            == fault_message(f),
{
    proof {
        reveal(after_system);
        reveal(fault_of);
    }
    match op {
        Opcode::Nop => nop(state, instruction),
        Opcode::Cls => cls(state, instruction),
        Opcode::Vblnk => vblnk(state, instruction),
        Opcode::BgcN => bgc_n(state, instruction),
        Opcode::SprHhll => spr_hhll(state, instruction),
        Opcode::DrwRxRyHhll => drw_rx_ry_hhll(state, instruction),
        Opcode::DrwRxRyRz => drw_rx_ry_rz(state, instruction),
        Opcode::RndRxHhll => store_random(state, instruction, random),
        Opcode::Flip => flip(state, instruction),
        Opcode::Snd0 => snd0(state, instruction),
        Opcode::Snd1Hhll => snd1_hhll(state, instruction),
        Opcode::Snd2Hhll => snd2_hhll(state, instruction),
        Opcode::Snd3Hhll => snd3_hhll(state, instruction),
        Opcode::SnpRxHhll => snp_rx_hhll(state, instruction),
        Opcode::SngAdVtsr => sng_ad_vtsr(state, instruction),
        _ => error(state, instruction),
    }
}

/// Runs the handler of a jump, call or return.
fn dispatch_flow(state: &mut CPU, op: Opcode, instruction: &Instruction) -> (r: Result<(), String>)
    requires
        old(state)@.wf(),
        op == opcode_of(opcode_byte(*instruction)),
        0x10 <= opcode_byte(*instruction) < 0x20,
    ensures
        final(state)@ == after_flow(old(state)@, *instruction),
        final(state)@.wf(),
        final(state).ready() == old(state).ready(),
        r is Err <==> fault_of(old(state)@, *instruction) is Some,
        r matches Err(e) ==> fault_of(old(state)@, *instruction) matches Some(f) && e@
            == fault_message(f),
{
    proof {
        reveal(after_flow);
        reveal(fault_of);
    }
    match op {
        Opcode::JmpHhll => jmp_hhll(state, instruction),
        Opcode::JmcHhll => jmc_hhll(state, instruction),
        Opcode::JxHhll => jx_hhll(state, instruction),
        Opcode::JmeRxRyHhll => jme_rx_ry_hhll(state, instruction),
        Opcode::CallHhll => call_hhll(state, instruction),
        Opcode::Ret => ret(state, instruction),
        Opcode::JmpRx => jmp_rx(state, instruction),
        Opcode::CxHhll => cx_hhll(state, instruction),
        Opcode::CallRx => call_rx(state, instruction),
        _ => error(state, instruction),
    }
}

/// Runs the handler of a load, a store, a stack or a palette instruction.
fn dispatch_memory(state: &mut CPU, op: Opcode, instruction: &Instruction) -> (r: Result<(), String>)
    requires
        old(state)@.wf(),
        op == opcode_of(opcode_byte(*instruction)),
        0x20 <= opcode_byte(*instruction) < 0x40 || 0xC0 <= opcode_byte(*instruction) < 0xE0,
    ensures
        final(state)@ == after_memory(old(state)@, *instruction),
        final(state)@.wf(),
        final(state).ready() == old(state).ready(),
        r is Err <==> fault_of(old(state)@, *instruction) is Some,
        r matches Err(e) ==> fault_of(old(state)@, *instruction) matches Some(f) && e@
            == fault_message(f),
{
    proof {
        reveal(after_memory);
        reveal(fault_of);
    }
    match op {
        Opcode::LdiRxHhll => ldi_rx_hhll(state, instruction),
        Opcode::LdiSpHhll => ldi_sp_hhll(state, instruction),
        Opcode::LdmRxHhll => ldm_rx_hhll(state, instruction),
        Opcode::LdmRxRy => ldm_rx_ry(state, instruction),
        Opcode::MovRxRy => mov_rx_ry(state, instruction),
        Opcode::StmRxHhll => stm_rx_hhll(state, instruction),
        Opcode::StmRxRy => stm_rx_ry(state, instruction),
        Opcode::PushRx => push_rx(state, instruction),
        Opcode::PopRx => pop_rx(state, instruction),
        Opcode::Pushall => pushall(state, instruction),
        Opcode::Popall => popall(state, instruction),
        Opcode::Pushf => pushf(state, instruction),
        Opcode::Popf => popf(state, instruction),
        Opcode::PalHhll => pal_hhll(state, instruction),
        Opcode::PalRx => pal_rx(state, instruction),
        _ => error(state, instruction),
    }
}

/// Runs the handler of an arithmetic, logic or shift instruction.
fn dispatch_arith(state: &mut CPU, op: Opcode, instruction: &Instruction) -> (r: Result<(), String>)
    requires
        old(state)@.wf(),
        op == opcode_of(opcode_byte(*instruction)),
        0x40 <= opcode_byte(*instruction) < 0xC0 || 0xE0 <= opcode_byte(*instruction),
    ensures
        final(state)@ == after_arith(old(state)@, *instruction),
        final(state)@.wf(),
        final(state).ready() == old(state).ready(),
        r is Err <==> fault_of(old(state)@, *instruction) is Some,
        r matches Err(e) ==> fault_of(old(state)@, *instruction) matches Some(f) && e@
            == fault_message(f),
{
    proof {
        reveal(after_arith);
        reveal(fault_of);
    }
    match op {
        Opcode::AddiRxHhll => addi_rx_hhll(state, instruction),
        Opcode::AddRxRy => add_rx_ry(state, instruction),
        Opcode::AddRxRyRz => add_rx_ry_rz(state, instruction),
        Opcode::SubiRxHhll => subi_rx_hhll(state, instruction),
        Opcode::SubRxRy => sub_rx_ry(state, instruction),
        Opcode::SubRxRyRz => sub_rx_ry_rz(state, instruction),
        Opcode::CmpiRxHhll => cmpi_rx_hhll(state, instruction),
        Opcode::CmpRxRy => cmp_rx_ry(state, instruction),
        Opcode::AndiRxHhll => andi_rx_hhll(state, instruction),
        Opcode::AndRxRy => and_rx_ry(state, instruction),
        Opcode::AndRxRyRz => and_rx_ry_rz(state, instruction),
        Opcode::TstiRxHhll => tsti_rx_hhll(state, instruction),
        Opcode::TstRxRy => tst_rx_ry(state, instruction),
        Opcode::OriRxHhll => ori_rx_hhll(state, instruction),
        Opcode::OrRxRy => or_rx_ry(state, instruction),
        Opcode::OrRxRyRz => or_rx_ry_rz(state, instruction),
        Opcode::XoriRxHhll => xori_rx_hhll(state, instruction),
        Opcode::XorRxRy => xor_rx_ry(state, instruction),
        Opcode::XorRxRyRz => xor_rx_ry_rz(state, instruction),
        Opcode::MuliRxHhll => muli_rx_hhll(state, instruction),
        Opcode::MulRxRy => mul_rx_ry(state, instruction),
        Opcode::MulRxRyRz => mul_rx_ry_rz(state, instruction),
        Opcode::DiviRxHhll => divi_rx_hhll(state, instruction),
        Opcode::DivRxRy => div_rx_ry(state, instruction),
        Opcode::DivRxRyRz => div_rx_ry_rz(state, instruction),
        Opcode::ModiRxHhll => modi_rx_hhll(state, instruction),
        Opcode::ModRxRy => mod_rx_ry(state, instruction),
        Opcode::ModRxRyRz => mod_rx_ry_rz(state, instruction),
        Opcode::RemiRxHhll => remi_rx_hhll(state, instruction),
        Opcode::RemRxRy => rem_rx_ry(state, instruction),
        Opcode::RemRxRyRz => rem_rx_ry_rz(state, instruction),
        Opcode::ShlRxN => shl_rx_n(state, instruction),
        Opcode::ShrRxN => shr_rx_n(state, instruction),
        Opcode::SarRxN => sar_rx_n(state, instruction),
        Opcode::ShlRxRy => shl_rx_ry(state, instruction),
        Opcode::ShrRxRy => shr_rx_ry(state, instruction),
        Opcode::SarRxRy => sar_rx_ry(state, instruction),
        Opcode::NotiRxHhll => noti_rx_hhll(state, instruction),
        Opcode::NotRx => not_rx(state, instruction),
        Opcode::NotRxRy => not_rx_ry(state, instruction),
        Opcode::NegiRxHhll => negi_rx_hhll(state, instruction),
        Opcode::NegRx => neg_rx(state, instruction),
        Opcode::NegRxRy => neg_rx_ry(state, instruction),
        _ => error(state, instruction),
    }
}

impl CPU {
    /// Whether the machine is in order and its dispatch table filled: what
    /// `step` and `execute` ask for. A machine made by `new` and `init` is,
    /// and every function of the machine keeps it so.
    pub fn is_valid(&self) -> (r: bool)
        ensures
            r == (self@.wf() && self.ready()),
    {
        if self.ops.len() != 256 {
            return false;
        }
        let mut b: usize = 0;
        while b < 256
            invariant
                b <= 256,
                self.ops@.len() == 256,
                forall|k: int| 0 <= k < b ==> self.ops@[k] == opcode_of(k),
            decreases 256 - b,
        {
            if self.ops[b] != decode(b as u8) {
                assert(self.ops@[b as int] != opcode_table()[b as int]);
                return false;
            }
            b = b + 1;
        }
        assert(self.ops@ =~= opcode_table());
        let mut k: usize = 0;
        while k < 76800
            invariant
                k <= 76800,
                forall|j: int| 0 <= j < k ==> self.screen@[j] <= 15,
            decreases 76800 - k,
        {
            if self.screen[k] > 15 {
                return false;
            }
            k = k + 1;
        }
        let audio: &AudioState = &self.audio_state;
        self.graphics.bg <= 15 && self.cycles < FRAME_CYCLES && audio.attack < 16 && audio.decay
            < 16 && audio.release < 16 && (!(audio.playing && audio.use_custom_params)
            || audio.total_duration_ms > 0)
    }

    /// Register `r`.
    pub fn register(&self, r: usize) -> (v: i16)
        requires
            r < 16,
        ensures
            v == self@.registers[r as int],
    {
        self.registers[r]
    }

    /// The program counter.
    pub fn pc(&self) -> (r: u16)
        ensures
            r == self@.pc,
    {
        self.pc
    }

    /// The stack pointer.
    pub fn sp(&self) -> (r: u16)
        ensures
            r == self@.sp,
    {
        self.sp
    }

    /// The four condition flags.
    pub fn flags(&self) -> (r: FLAGS)
        ensures
            r == self@.flags,
    {
        self.flags
    }

    /// The vblank latch.
    pub fn vblnk(&self) -> (r: bool)
        ensures
            r == self@.vblnk,
    {
        self.vblnk
    }

    /// Instructions executed since the last frame boundary.
    pub fn cycles(&self) -> (r: u32)
        ensures
            r == self@.cycles,
    {
        self.cycles
    }

    /// The byte of memory at `addr`.
    pub fn mem_byte(&self, addr: u16) -> (r: u8)
        ensures
            r == self@.mem[addr as int],
    {
        self.mem[addr as usize]
    }

    /// The bytes of the two controllers.
    pub fn controls(&self) -> (r: [u8; 2])
        ensures
            r@ == self@.controls,
    {
        self.controls
    }

    /// The sprite settings and the background colour.
    pub fn graphics(&self) -> (r: GPU)
        ensures
            r == self@.graphics,
    {
        self.graphics
    }

    /// The tone generator's settings, and what it asks of the output
    /// device.
    pub fn audio_state(&self) -> (r: AudioState)
        ensures
            r == self@.audio,
    {
        self.audio_state
    }

    /// Records that the output device has been told what the tone
    /// generator asked for.
    pub fn acknowledge_audio(&mut self)
        ensures
            final(self)@ == old(self)@.with_audio(
                AudioState { request: WaveRequest::Idle, ..old(self)@.audio },
            ),
            final(self).ready() == old(self).ready(),
    {
        self.audio_state.acknowledge();
    }

    /// A button of the first controller goes down: its bit is set.
    pub fn key_down(&mut self, button: Button)
        ensures
            final(self)@ == (CpuState {
                controls: old(self)@.controls.update(
                    0,
                    old(self)@.controls[0] | button_mask_of(button),
                ),
                ..old(self)@
            }),
            final(self).ready() == old(self).ready(),
    {
        let held: u8 = self.controls[0];
        self.controls[0] = held | button_mask(button);
    }

    /// A button of the first controller goes up: its bit is cleared.
    pub fn key_up(&mut self, button: Button)
        ensures
            final(self)@ == (CpuState {
                controls: old(self)@.controls.update(
                    0,
                    old(self)@.controls[0] & !button_mask_of(button),
                ),
                ..old(self)@
            }),
            final(self).ready() == old(self).ready(),
    {
        let held: u8 = self.controls[0];
        self.controls[0] = held & !button_mask(button);
    }

    /// Stops a tone that has outlasted its envelope, `elapsed_nanos` after
    /// it started.
    pub fn poll_audio(&mut self, elapsed_nanos: u128)
        requires
            old(self)@.wf(),
        ensures
            final(self)@ == audio_polled(old(self)@, elapsed_nanos),
            final(self)@.wf(),
            final(self).ready() == old(self).ready(),
    {
        if self.audio_state.is_finished(elapsed_nanos) {
            self.audio_state.clear();
        }
    }

    /// Ends a frame: stops a tone that has outlasted its envelope, takes
    /// the buttons that went down, writes the controller bytes to memory,
    /// and then takes the buttons that went up.
    pub fn end_frame(&mut self, audio_elapsed_nanos: u128, pressed: &[Button], released: &[Button])
        requires
            old(self)@.wf(),
        ensures
            final(self)@ == frame_ended(old(self)@, audio_elapsed_nanos, pressed@, released@),
            final(self)@.wf(),
            final(self).ready() == old(self).ready(),
    {
        self.poll_audio(audio_elapsed_nanos);
        let ghost polled = self@;
        assert(polled.controls.update(0, polled.controls[0]) =~= polled.controls);
        let mut k: usize = 0;
        while k < pressed.len()
            invariant
                k <= pressed@.len(),
                polled.wf(),
                self.ready() == old(self).ready(),
                self@ == holding(polled, pressed_all(polled.controls[0], pressed@.take(k as int))),
            decreases pressed@.len() - k,
        {
            assert(pressed@.take(k + 1).drop_last() =~= pressed@.take(k as int));
            self.key_down(pressed[k]);
            k = k + 1;
            assert(self@.controls =~= holding(
                polled,
                pressed_all(polled.controls[0], pressed@.take(k as int)),
            ).controls);
        }
        assert(pressed@.take(k as int) =~= pressed@);
        let ghost down = pressed_all(polled.controls[0], pressed@);
        self.update_control_mem();
        let ghost latched = self@;
        assert(latched.controls.update(0, down) =~= latched.controls);
        let mut k: usize = 0;
        while k < released.len()
            invariant
                k <= released@.len(),
                latched.wf(),
                latched.controls.len() == 2,
                self.ready() == old(self).ready(),
                self@ == holding(latched, released_all(down, released@.take(k as int))),
            decreases released@.len() - k,
        {
            assert(released@.take(k + 1).drop_last() =~= released@.take(k as int));
            self.key_up(released[k]);
            k = k + 1;
            assert(self@.controls =~= holding(
                latched,
                released_all(down, released@.take(k as int)),
            ).controls);
        }
        assert(released@.take(k as int) =~= released@);
    }

    /// Executes one instruction, with `random` as the number that `RND`
    /// draws. The result is an error exactly when the instruction faults,
    /// and then carries the fault's message.
    pub fn execute_with(&mut self, instruction: &Instruction, random: u16) -> (r: Result<(), String>)
        requires
            old(self)@.wf(),
            old(self).ready(),
        ensures
            final(self)@ == after(old(self)@, *instruction, random),
            final(self)@.wf(),
            final(self).ready(),
            r is Err <==> fault_of(old(self)@, *instruction) is Some,
            r matches Err(e) ==> fault_of(old(self)@, *instruction) matches Some(f) && e@
                == fault_message(f),
    {
        let b: u8 = instruction[0];
        let op: Opcode = self.ops[usize::from(b)];
        if b < 0x10 {
            dispatch_system(self, op, instruction, random)
        } else if b < 0x20 {
            dispatch_flow(self, op, instruction)
        } else if b < 0x40 || (0xC0 <= b && b < 0xE0) {
            dispatch_memory(self, op, instruction)
        } else {
            dispatch_arith(self, op, instruction)
        }

    }

    /// Executes one instruction. `RND` draws its number here; so the state
    /// afterwards is the one that `after` gives for some number up to the
    /// instruction's immediate.
    pub fn execute(&mut self, instruction: &Instruction) -> (r: Result<(), String>)
        requires
            old(self)@.wf(),
            old(self).ready(),
        ensures
            exists|random: u16|
                random <= hhll_of(*instruction) && final(self)@ == after(
                    old(self)@,
                    *instruction,
                    random,
                ),
            final(self)@.wf(),
            final(self).ready(),
            r is Err <==> fault_of(old(self)@, *instruction) is Some,
            r matches Err(e) ==> fault_of(old(self)@, *instruction) matches Some(f) && e@
                == fault_message(f),
    {
        proof {
            reveal(after_system);
            reveal(fault_of);
        }
        let op: Opcode = self.ops[usize::from(instruction[0])];
        match op {
            Opcode::RndRxHhll => {
                let r = rnd_rx_hhll(self, instruction);
                proof {
                    let random = choose|random: u16|
                        random <= hhll_of(*instruction) && self@ == after_rnd_rx_hhll(
                            old(self)@,
                            *instruction,
                            random,
                        );
                    assert(opcode_byte(*instruction) == 0x07);
                    assert(self@ == after(old(self)@, *instruction, random));
                }
                r
            },
            _ => {
                let r = self.execute_with(instruction, 0);
                assert(self@ == after(old(self)@, *instruction, 0u16));
                r
            },
        }
    }

    /// Fetches the instruction at the program counter.
    fn fetch(&self) -> (r: Instruction)
        ensures
            r == self@.fetched(),
    {
        let pc: usize = usize::from(self.pc);
        let r: Instruction = [
            self.mem[pc],
            self.mem[(pc + 1) % 0x10000],
            self.mem[(pc + 2) % 0x10000],
            self.mem[(pc + 3) % 0x10000],
        ];
        assert(r =~= self@.fetched());
        r
    }

    /// Counts an executed instruction and sets the vblank latch; tells
    /// whether a frame boundary was reached.
    fn tick(&mut self) -> (boundary: bool)
        requires
            old(self)@.wf(),
        ensures
            final(self)@ == old(self)@.ticked(),
            final(self)@.wf(),
            final(self).ready() == old(self).ready(),
            boundary == (old(self)@.cycles + 1 >= FRAME_CYCLES),
    {
        self.cycles = self.cycles + 1;
        if self.cycles >= FRAME_CYCLES {
            self.cycles = 0;
            self.vblnk = true;
            true
        } else {
            self.vblnk = false;
            false
        }
    }

    /// One step with `random` as the number that `RND` draws: fetch,
    /// advance the program counter by four, execute, count. `Ok(true)`
    /// says that a frame boundary was reached.
    pub fn step_with(&mut self, random: u16) -> (r: Result<bool, String>)
        requires
            old(self)@.wf(),
            old(self).ready(),
        ensures
            final(self)@ == stepped(old(self)@, random),
            final(self)@.wf(),
            final(self).ready(),
            step_fault(old(self)@) is None ==> r == Ok::<bool, String>(
                old(self)@.cycles + 1 >= FRAME_CYCLES,
            ),
            step_fault(old(self)@) matches Some(f) ==> (r matches Err(e) && e@ == fault_message(f)),
    {
        let next_inst: Instruction = self.fetch();
        self.pc = self.pc.wrapping_add(4);
        proof {
            lemma_after_keeps_frame(self@, next_inst, random);
        }
        match self.execute_with(&next_inst, random) {
            Ok(_) => Ok(self.tick()),
            Err(e) => Err(e),
        }
    }

    /// One step: fetch, advance the program counter by four, execute,
    /// count. `Ok(true)` says that a frame boundary was reached. `RND`
    /// draws its number here.
    pub fn step(&mut self) -> (r: Result<bool, String>)
        requires
            old(self)@.wf(),
            old(self).ready(),
        ensures
            exists|random: u16|
                random <= hhll_of(old(self)@.fetched()) && final(self)@ == stepped(
                    old(self)@,
                    random,
                ),
            final(self)@.wf(),
            final(self).ready(),
            step_fault(old(self)@) is None ==> r == Ok::<bool, String>(
                old(self)@.cycles + 1 >= FRAME_CYCLES,
            ),
            step_fault(old(self)@) matches Some(f) ==> (r matches Err(e) && e@ == fault_message(f)),
    {
        let next_inst: Instruction = self.fetch();
        self.pc = self.pc.wrapping_add(4);
        let ghost fetched = self@;
        let r = self.execute(&next_inst);
        let ghost random = choose|random: u16|
            random <= hhll_of(next_inst) && self@ == after(fetched, next_inst, random);
        proof {
            lemma_after_keeps_frame(fetched, next_inst, random);
        }
        match r {
            Ok(_) => {
                let boundary = self.tick();
                assert(self@ == stepped(old(self)@, random));
                Ok(boundary)
            },
            Err(e) => {
                assert(self@ == stepped(old(self)@, random));
                Err(e)
            },
        }
    }
}

} // verus!
