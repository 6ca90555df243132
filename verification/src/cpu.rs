//! The machine itself: its registers, memory and screen, and the
//! primitives that instructions are built from.

use vstd::prelude::*;
use crate::audio::AudioState;
use crate::flags::{cond_holds, FLAGS};
use crate::graphics::{blit, default_palette, palette_at, read_palette, GPU};
use crate::instruction::{low_nibble, rx_of, Instruction};
use crate::opcode::{build_table, opcode_table, Opcode};
use crate::state::{CpuState, CONTROLLER_0, CONTROLLER_1, STACK_START};
use crate::word::{read_u16_le, to_signed, to_unsigned, unsigned, word_of, write_u16_le};

verus! {

/// A Chip16 machine.
pub struct CPU {
    pub(crate) ops: Vec<Opcode>,
    pub(crate) registers: [i16; 16],
    pub(crate) pc: u16,
    pub(crate) sp: u16,
    pub(crate) flags: FLAGS,
    pub(crate) vblnk: bool,
    pub(crate) mem: [u8; 65536],
    pub(crate) graphics: GPU,
    pub(crate) screen: [u8; 76800],
    pub(crate) palette: [u32; 16],
    pub(crate) controls: [u8; 2],
    pub(crate) cycles: u32,
    pub(crate) audio_state: AudioState,
}

impl View for CPU {
    type V = CpuState;

    open(crate) spec fn view(&self) -> CpuState {
        CpuState {
            registers: self.registers@,
            pc: self.pc,
            sp: self.sp,
            flags: self.flags,
            vblnk: self.vblnk,
            mem: self.mem@,
            graphics: self.graphics,
            screen: self.screen@,
            palette: self.palette@,
            controls: self.controls@,
            cycles: self.cycles,
            audio: self.audio_state,
        }
    }
}

/// The machine at power-on with `mem` as its memory.
pub open spec fn power_on(mem: Seq<u8>) -> CpuState {
    CpuState {
        registers: Seq::new(16, |i: int| 0i16),
        pc: 0,
        sp: STACK_START,
        flags: FLAGS { C: false, Z: false, O: false, N: false },
        vblnk: false,
        mem,
        graphics: GPU { bg: 0, spritew: 0, spriteh: 0, hflip: false, vflip: false },
        screen: Seq::new(76800, |i: int| 0u8),
        palette: default_palette(),
        controls: Seq::new(2, |i: int| 0u8),
        cycles: 0,
        audio: AudioState::initial(),
    }
}

impl CPU {
    /// Whether the dispatch table has been filled.
    pub open(crate) spec fn ready(&self) -> bool {
        self.ops@ == opcode_table()
    }

    /// A machine at power-on with a copy of `mem` as its memory. Its
    /// dispatch table is still empty: `init` fills it.
    pub fn new(mem: &mut [u8; 65536]) -> (cpu: CPU)
        ensures
            *final(mem) == *old(mem),
            cpu@ == power_on(old(mem)@),
            cpu@.wf(),
    {
        let cpu = CPU {
            ops: Vec::new(),
            registers: [0i16; 16],
            pc: 0,
            sp: 0xFDF0,
            flags: FLAGS { N: false, O: false, Z: false, C: false },
            vblnk: false,
            mem: *mem,
            graphics: GPU { bg: 0, spritew: 0, spriteh: 0, hflip: false, vflip: false },
            controls: [0u8; 2],
            screen: [0u8; 76800],
            palette: [
                0x000000,
                0x000000,
                0x888888,
                0xBF3232,
                0xDE7AAE,
                0x4C3D21,
                0x905F25,
                0xE49452,
                0xEAD979,
                0x537A3B,
                0xABD54A,
                0x252E38,
                0x00467F,
                0x68ABCC,
                0xBCDEE4,
                0xFFFFFF,
            ],
            cycles: 0,
            audio_state: AudioState::new(),
        };
        assert(cpu@.registers =~= power_on(mem@).registers);
        assert(cpu@.screen =~= power_on(mem@).screen);
        assert(cpu@.palette =~= power_on(mem@).palette);
        assert(cpu@.controls =~= power_on(mem@).controls);
        cpu
    }

    /// Fills the dispatch table. The machine's state stays as it is.
    pub fn init(&mut self)
        ensures
            final(self)@ == old(self)@,
            final(self).ready(),
    {
        self.ops = build_table();
    }

    /// Sets the program counter from a little-endian byte pair.
    pub fn set_pc(&mut self, address: [u8; 2])
        ensures
            final(self)@ == old(self)@.with_pc(word_of(address[0], address[1])),
            final(self).ready() == old(self).ready(),
    {
        self.pc = read_u16_le(address.as_slice());
    }

    /// The screen: 320 by 240 palette indices, row by row.
    pub fn screen(&mut self) -> (r: [u8; 76800])
        ensures
            *final(self) == *old(self),
            r@ == old(self)@.screen,
    {
        self.screen
    }

    /// The sixteen colours, `0xRRGGBB`.
    pub fn palette(&mut self) -> (r: [u32; 16])
        ensures
            *final(self) == *old(self),
            r@ == old(self)@.palette,
    {
        self.palette
    }

    /// The palette index of the background.
    pub fn bgc(&mut self) -> (r: u8)
        ensures
            *final(self) == *old(self),
            r == old(self)@.graphics.bg,
    {
        self.graphics.bg
    }

    /// Writes the controller bytes to their addresses in memory.
    pub fn update_control_mem(&mut self)
        ensures
            final(self)@ == old(self)@.controls_latched(),
            final(self).ready() == old(self).ready(),
    {
        self.mem[CONTROLLER_0] = self.controls[0];
        self.mem[CONTROLLER_1] = self.controls[1];
    }
}

/// The word at address `addr` and the address after it.
pub fn load_mem(state: &CPU, addr: u16) -> (r: u16)
    ensures
        r == state@.word_at(addr as int),
{
    let a: usize = addr as usize;
    let bytes: [u8; 2] = [state.mem[a], state.mem[(a + 1) % 0x10000]];
    read_u16_le(bytes.as_slice())
}

/// Stores `val` little-endian at address `addr` and the address after it.
pub fn store_mem(state: &mut CPU, val: u16, addr: u16)
    ensures
        final(state)@ == old(state)@.stored(addr as int, val),
        final(state).ready() == old(state).ready(),
{
    let a: usize = addr as usize;
    let bytes: [u8; 2] = write_u16_le(val);
    state.mem[a] = bytes[0];
    state.mem[(a + 1) % 0x10000] = bytes[1];
}

/// Evaluates the branch condition in the low nibble of byte 1. Condition
/// `0xF` is an error.
pub fn test_cond(state: &CPU, instruction: &Instruction) -> (r: Result<bool, String>)
    ensures
        rx_of(*instruction) < 15 ==> r == Ok::<bool, String>(
            cond_holds(state@.flags, rx_of(*instruction)),
        ),
        rx_of(*instruction) == 15 ==> (r matches Err(e) && e@ == "Invalid condition"@),
{
    state.flags.test(low_nibble(instruction[1]))
}

/// Pushes a register: stores it at the stack pointer, which then rises by
/// two.
pub fn push_reg(state: &mut CPU, register: usize)
    requires
        register < 16,
    ensures
        final(state)@ == old(state)@.pushed(unsigned(old(state)@.registers[register as int]) as u16),
        final(state).ready() == old(state).ready(),
{
    let val: u16 = to_unsigned(state.registers[register]);
    let sp: u16 = state.sp;
    store_mem(state, val, sp);
    state.sp = state.sp.wrapping_add(2);
}

/// Pops a register: the stack pointer falls by two, and the register takes
/// the word it then points at.
pub fn pop_reg(state: &mut CPU, register: usize)
    requires
        register < 16,
    ensures
        final(state)@ == old(state)@.popped(register as int),
        final(state).ready() == old(state).ready(),
{
    state.sp = state.sp.wrapping_sub(2);
    let word: u16 = load_mem(state, state.sp);
    state.registers[register] = to_signed(word);
}

/// Loads the palette from the 48 bytes at `start_addr`: sixteen colours of
/// three bytes each, red first.
pub fn load_palette(state: &mut CPU, start_addr: u16)
    ensures
        final(state)@ == old(state)@.with_palette(palette_at(old(state)@.mem, start_addr as int)),
        final(state).ready() == old(state).ready(),
{
    state.palette = read_palette(&state.mem, start_addr);
}

/// Draws the sprite at `sprite_addr` with its top left corner at
/// `(x_coord, y_coord)`, and sets C if it went over a pixel that was set.
/// Every byte written to the screen is a palette index from 1 to 15.
pub fn draw_sprite(state: &mut CPU, x_coord: i16, y_coord: i16, sprite_addr: u16)
    requires
        old(state)@.wf(),
    ensures
        final(state)@ == old(state)@.drawn(x_coord, y_coord, sprite_addr),
        final(state)@.wf(),
        final(state).ready() == old(state).ready(),
        forall|i: int|
            0 <= i < 76800 && #[trigger] final(state)@.screen[i] != old(state)@.screen[i] ==> 1
                <= final(state)@.screen[i] <= 15,
{
    let hit: bool = blit(
        &state.mem,
        &mut state.screen,
        &state.graphics,
        x_coord,
        y_coord,
        sprite_addr,
    );
    state.flags.C = hit;
}

} // verus!
