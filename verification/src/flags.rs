//! The four condition flags, the sixteen branch conditions over them, and
//! the byte that carries the flags on the stack.

use vstd::prelude::*;

verus! {

/// Carry, Zero, Overflow and Negative.
#[allow(non_snake_case)]
#[derive(Clone, Copy, Debug, PartialEq, Eq, Structural)]
pub struct FLAGS {
    pub C: bool,
    pub Z: bool,
    pub O: bool,
    pub N: bool,
}

/// Whether branch condition `cond` holds of the flags, for the conditions
/// `0x0..=0xE`. Condition `0xF` does not exist.
pub open spec fn cond_holds(f: FLAGS, cond: int) -> bool {
    if cond == 0x0 {
        f.Z
    } else if cond == 0x1 {
        !f.Z
    } else if cond == 0x2 {
        f.N
    } else if cond == 0x3 {
        !f.N
    } else if cond == 0x4 {
        !f.Z && !f.N
    } else if cond == 0x5 {
        f.O
    } else if cond == 0x6 {
        !f.O
    } else if cond == 0x7 {
        !f.C && !f.Z
    } else if cond == 0x8 {
        !f.C
    } else if cond == 0x9 {
        f.C
    } else if cond == 0xA {
        f.C || f.Z
    } else if cond == 0xB {
        f.O == f.N && !f.Z
    } else if cond == 0xC {
        f.O == f.N
    } else if cond == 0xD {
        f.O != f.N
    } else {
        f.O != f.N || f.Z
    }
}

/// The byte that stands for the flags on the stack: C is bit 1, Z bit 2,
/// O bit 6 and N bit 7; the other bits are clear.
pub open spec fn flags_byte(f: FLAGS) -> u8 {
    ((if f.C { 2int } else { 0 }) + (if f.Z { 4int } else { 0 }) + (if f.O { 64int } else { 0 })
        + (if f.N { 128int } else { 0 })) as u8
}

/// The flags that a byte from the stack stands for. Bits other than 1, 2,
/// 6 and 7 are not looked at.
pub open spec fn flags_of_byte(b: u8) -> FLAGS {
    FLAGS {
        C: (b as int / 2) % 2 == 1,
        Z: (b as int / 4) % 2 == 1,
        O: (b as int / 64) % 2 == 1,
        N: (b as int / 128) % 2 == 1,
    }
}

/// Encoding the flags in a byte loses nothing.
pub proof fn lemma_flags_byte_round_trip(f: FLAGS)
    ensures
        flags_of_byte(flags_byte(f)) == f,
{
}

impl FLAGS {
    /// All four flags clear.
    pub fn new() -> (r: FLAGS)
        ensures
            r == (FLAGS { C: false, Z: false, O: false, N: false }),
    {
        FLAGS { C: false, Z: false, O: false, N: false }
    }

    /// The byte that carries the flags on the stack.
    pub fn to_byte(&self) -> (r: u8)
        ensures
            r == flags_byte(*self),
    {
        let mut val: u8 = 0;
        if self.C {
            val = val + 2;
        }
        if self.Z {
            val = val + 4;
        }
        if self.O {
            val = val + 64;
        }
        if self.N {
            val = val + 128;
        }
        val
    }

    /// The flags carried by a byte from the stack.
    pub fn from_byte(val: u8) -> (r: FLAGS)
        ensures
            r == flags_of_byte(val),
    {
        assert((val & 0b0000_0010 > 0) == ((val / 2) % 2 == 1) && (val & 0b0000_0100 > 0) == ((val
            / 4) % 2 == 1) && (val & 0b0100_0000 > 0) == ((val / 64) % 2 == 1) && (val
            & 0b1000_0000 > 0) == ((val / 128) % 2 == 1)) by (bit_vector);
        FLAGS {
            C: val & 0b0000_0010 > 0,
            Z: val & 0b0000_0100 > 0,
            O: val & 0b0100_0000 > 0,
            N: val & 0b1000_0000 > 0,
        }
    }

    /// Evaluates branch condition `cond`. Condition `0xF` and anything
    /// above it is an error.
    pub fn test(&self, cond: u8) -> (r: Result<bool, String>)
        ensures
            cond < 0xF ==> r == Ok::<bool, String>(cond_holds(*self, cond as int)),
            cond >= 0xF ==> (r matches Err(e) && e@ == "Invalid condition"@),
    {
        match cond {
            0x0 => Ok(self.Z),
            0x1 => Ok(!self.Z),
            0x2 => Ok(self.N),
            0x3 => Ok(!self.N),
            0x4 => Ok(!self.Z && !self.N),
            0x5 => Ok(self.O),
            0x6 => Ok(!self.O),
            0x7 => Ok(!self.C && !self.Z),
            0x8 => Ok(!self.C),
            0x9 => Ok(self.C),
            0xA => Ok(self.C || self.Z),
            0xB => Ok(self.O == self.N && !self.Z),
            0xC => Ok(self.O == self.N),
            0xD => Ok(self.O != self.N),
            0xE => Ok(self.O != self.N || self.Z),
            _ => Err("Invalid condition".to_owned()),
        }
    }
}

} // verus!
