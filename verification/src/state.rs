//! The mathematical model of the machine: its state as plain values, and
//! what each part of an instruction does to it.
//!
//! Addresses wrap at the end of memory, the program counter and the stack
//! pointer wrap at sixteen bits. The stack grows upward: a push stores at
//! the stack pointer and then raises it by two.

use vstd::prelude::*;
use crate::audio::AudioState;
use crate::flags::{flags_byte, flags_of_byte, FLAGS};
use crate::graphics::{all_indices, collides, drawn_screen, GPU};
use crate::word::{signed, unsigned, word_of, wrap16};

verus! {

/// Instructions executed between two frame boundaries: a million a second
/// at sixty frames a second.
pub const FRAME_CYCLES: u32 = 16666;

/// The address that shadows the first controller.
pub const CONTROLLER_0: usize = 0xFFF0;

/// The address that shadows the second controller.
pub const CONTROLLER_1: usize = 0xFFF2;

/// The stack pointer at power-on.
pub const STACK_START: u16 = 0xFDF0;

/// The state of the machine.
pub struct CpuState {
    /// The sixteen registers.
    pub registers: Seq<i16>,
    pub pc: u16,
    pub sp: u16,
    pub flags: FLAGS,
    /// The vblank latch: true for the first instruction after a frame
    /// boundary only.
    pub vblnk: bool,
    /// The 65536 bytes of memory.
    pub mem: Seq<u8>,
    pub graphics: GPU,
    /// The 76800 pixels of the screen, row by row.
    pub screen: Seq<u8>,
    /// The sixteen colours, `0xRRGGBB`.
    pub palette: Seq<u32>,
    /// The buttons held on the two controllers.
    pub controls: Seq<u8>,
    /// Instructions executed since the last frame boundary.
    pub cycles: u32,
    pub audio: AudioState,
}

/// The little-endian word at address `a` and the address after it.
pub open spec fn word_at(mem: Seq<u8>, a: int) -> u16 {
    word_of(mem[a % 0x10000], mem[(a + 1) % 0x10000])
}

/// Memory with the word `w` stored little-endian at address `a` and the
/// address after it.
pub open spec fn store_word(mem: Seq<u8>, a: int, w: u16) -> Seq<u8> {
    mem.update(a % 0x10000, (w % 256) as u8).update((a + 1) % 0x10000, (w / 256) as u8)
}

/// Byte `k` of the block that pushing all registers writes: the registers
/// in ascending order, each as a little-endian word.
pub open spec fn register_byte(registers: Seq<i16>, k: int) -> u8 {
    if k % 2 == 0 {
        (unsigned(registers[k / 2]) % 256) as u8
    } else {
        (unsigned(registers[k / 2]) / 256) as u8
    }
}

/// Memory after the first `count` registers were pushed from `sp` on.
pub open spec fn pushed_mem(mem: Seq<u8>, sp: u16, registers: Seq<i16>, count: int) -> Seq<u8> {
    Seq::new(
        0x10000,
        |k: int|
            if (k - sp) % 0x10000 < 2 * count {
                register_byte(registers, (k - sp) % 0x10000)
            } else {
                mem[k]
            },
    )
}

/// The registers after the last `count` of them were popped with the stack
/// pointer at `sp`: register 15 comes off first.
pub open spec fn popped_registers(
    mem: Seq<u8>,
    sp: u16,
    registers: Seq<i16>,
    count: int,
) -> Seq<i16> {
    Seq::new(
        16,
        |r: int|
            if r >= 16 - count {
                signed(word_at(mem, sp - 2 * (16 - r)) as int)
            } else {
                registers[r]
            },
    )
}

impl CpuState {
    /// The sizes are those of the machine, every pixel is a palette index,
    /// the background is one too, fewer than a frame's instructions ran
    /// since the last boundary, and the tone generator is in order.
    pub open spec fn wf(self) -> bool {
        &&& self.registers.len() == 16
        &&& self.mem.len() == 0x10000
        &&& self.screen.len() == 76800
        &&& self.palette.len() == 16
        &&& self.controls.len() == 2
        &&& all_indices(self.screen)
        &&& self.graphics.bg <= 15
        &&& self.cycles < FRAME_CYCLES
        &&& self.audio.wf()
    }

    /// The word at address `a`.
    pub open spec fn word_at(self, a: int) -> u16 {
        word_at(self.mem, a)
    }

    pub open spec fn set_reg(self, r: int, v: i16) -> CpuState {
        CpuState { registers: self.registers.update(r, v), ..self }
    }

    pub open spec fn with_flags(self, flags: FLAGS) -> CpuState {
        CpuState { flags, ..self }
    }

    pub open spec fn with_pc(self, pc: u16) -> CpuState {
        CpuState { pc, ..self }
    }

    pub open spec fn with_sp(self, sp: u16) -> CpuState {
        CpuState { sp, ..self }
    }

    pub open spec fn with_graphics(self, graphics: GPU) -> CpuState {
        CpuState { graphics, ..self }
    }

    pub open spec fn with_audio(self, audio: AudioState) -> CpuState {
        CpuState { audio, ..self }
    }

    pub open spec fn with_palette(self, palette: Seq<u32>) -> CpuState {
        CpuState { palette, ..self }
    }

    /// A result stored in register `dst`, with the flags it gives.
    pub open spec fn arith(self, dst: int, value: i16, flags: FLAGS) -> CpuState {
        self.set_reg(dst, value).with_flags(flags)
    }

    /// The screen cleared to index 0 and the background set to 0.
    pub open spec fn cleared(self) -> CpuState {
        CpuState {
            screen: Seq::new(76800, |i: int| 0u8),
            graphics: GPU { bg: 0, ..self.graphics },
            ..self
        }
    }

    /// Waiting for the frame boundary: unless the vblank latch is set, the
    /// program counter steps back onto the instruction just fetched.
    pub open spec fn waited(self) -> CpuState {
        if self.vblnk {
            self
        } else {
            self.with_pc(wrap16(self.pc - 4))
        }
    }

    /// A sprite drawn at `(x, y)` from address `addr`; C tells whether it
    /// went over a pixel that was set.
    pub open spec fn drawn(self, x: i16, y: i16, addr: u16) -> CpuState {
        CpuState {
            screen: drawn_screen(self.screen, self.mem, self.graphics, x, y, addr),
            flags: FLAGS {
                C: collides(self.screen, self.mem, self.graphics, x, y, addr),
                ..self.flags
            },
            ..self
        }
    }

    /// The word `w` stored at address `a`.
    pub open spec fn stored(self, a: int, w: u16) -> CpuState {
        CpuState { mem: store_word(self.mem, a, w), ..self }
    }

    /// The word `w` pushed on the stack.
    pub open spec fn pushed(self, w: u16) -> CpuState {
        self.stored(self.sp as int, w).with_sp(wrap16(self.sp + 2))
    }

    /// The top of the stack popped into register `r`.
    pub open spec fn popped(self, r: int) -> CpuState {
        let sp = wrap16(self.sp - 2);
        self.with_sp(sp).set_reg(r, signed(self.word_at(sp as int) as int))
    }

    /// A call: the program counter is pushed and replaced by `target`.
    pub open spec fn called(self, target: u16) -> CpuState {
        self.pushed(self.pc).with_pc(target)
    }

    /// A return: the program counter is popped.
    pub open spec fn returned(self) -> CpuState {
        let sp = wrap16(self.sp - 2);
        self.with_sp(sp).with_pc(self.word_at(sp as int))
    }

    /// All sixteen registers pushed, register 0 first.
    pub open spec fn pushed_all(self) -> CpuState {
        CpuState {
            mem: pushed_mem(self.mem, self.sp, self.registers, 16),
            sp: wrap16(self.sp + 32),
            ..self
        }
    }

    /// All sixteen registers popped, register 15 first.
    pub open spec fn popped_all(self) -> CpuState {
        CpuState {
            registers: popped_registers(self.mem, self.sp, self.registers, 16),
            sp: wrap16(self.sp - 32),
            ..self
        }
    }

    /// The flags pushed: their byte goes to the stack pointer's address,
    /// the byte after it stays as it was, and the stack pointer rises by
    /// two.
    pub open spec fn pushed_flags(self) -> CpuState {
        CpuState {
            mem: self.mem.update(self.sp as int, flags_byte(self.flags)),
            sp: wrap16(self.sp + 2),
            ..self
        }
    }

    /// The flags popped.
    pub open spec fn popped_flags(self) -> CpuState {
        let sp = wrap16(self.sp - 2);
        CpuState { sp, flags: flags_of_byte(self.mem[sp as int]), ..self }
    }

    /// The instruction at the program counter.
    pub open spec fn fetched(self) -> [u8; 4] {
        [
            self.mem[self.pc as int],
            self.mem[(self.pc + 1) % 0x10000],
            self.mem[(self.pc + 2) % 0x10000],
            self.mem[(self.pc + 3) % 0x10000],
        ]
    }

    /// The end of an instruction: the cycle counter rises; at
    /// `FRAME_CYCLES` it falls back to zero and the vblank latch is set,
    /// otherwise the latch is cleared.
    pub open spec fn ticked(self) -> CpuState {
        if self.cycles + 1 >= FRAME_CYCLES {
            CpuState { cycles: 0, vblnk: true, ..self }
        } else {
            CpuState { cycles: (self.cycles + 1) as u32, vblnk: false, ..self }
        }
    }

    /// The controller bytes written to their two addresses.
    pub open spec fn controls_latched(self) -> CpuState {
        CpuState {
            mem: self.mem.update(CONTROLLER_0 as int, self.controls[0]).update(
                CONTROLLER_1 as int,
                self.controls[1],
            ),
            ..self
        }
    }
}

} // verus!
