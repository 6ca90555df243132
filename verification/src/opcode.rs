//! The opcodes and the dispatch table.
//!
//! An instruction's first byte selects its handler through a table of 256
//! entries. Bytes that name no instruction select `Invalid`.

use vstd::prelude::*;

verus! {

/// The handler that an opcode byte selects.
#[derive(Clone, Copy, Debug, PartialEq, Eq, Structural)]
pub enum Opcode {
    /// No instruction has this opcode.
    Invalid,
    /// `0x00` NOP: nothing.
    Nop,
    /// `0x01` CLS: clear the screen and the background colour.
    Cls,
    /// `0x02` VBLNK: wait for the frame boundary.
    Vblnk,
    /// `0x03` BGC n: set the background colour.
    BgcN,
    /// `0x04` SPR HHLL: set the sprite size.
    SprHhll,
    /// `0x05` DRW rx, ry, HHLL: draw the sprite at HHLL.
    DrwRxRyHhll,
    /// `0x06` DRW rx, ry, rz: draw the sprite at the address in rz.
    DrwRxRyRz,
    /// `0x07` RND rx, HHLL: a random number up to HHLL.
    RndRxHhll,
    /// `0x08` FLIP: set the sprite mirroring.
    Flip,
    /// `0x09` SND0: stop the tone generator.
    Snd0,
    /// `0x0A` SND1 HHLL: 500 Hz for HHLL ms.
    Snd1Hhll,
    /// `0x0B` SND2 HHLL: 1000 Hz for HHLL ms.
    Snd2Hhll,
    /// `0x0C` SND3 HHLL: 1500 Hz for HHLL ms.
    Snd3Hhll,
    /// `0x0D` SNP rx, HHLL: the tone stored at the address in rx, for HHLL ms.
    SnpRxHhll,
    /// `0x0E` SNG AD, VTSR: set the envelope and the waveform.
    SngAdVtsr,
    /// `0x10` JMP HHLL.
    JmpHhll,
    /// `0x11` JMC HHLL: jump if carry.
    JmcHhll,
    /// `0x12` Jx HHLL: jump on condition x.
    JxHhll,
    /// `0x13` JME rx, ry, HHLL: jump if rx equals ry.
    JmeRxRyHhll,
    /// `0x14` CALL HHLL.
    CallHhll,
    /// `0x15` RET.
    Ret,
    /// `0x16` JMP rx.
    JmpRx,
    /// `0x17` Cx HHLL: call on condition x.
    CxHhll,
    /// `0x18` CALL rx.
    CallRx,
    /// `0x20` LDI rx, HHLL.
    LdiRxHhll,
    /// `0x21` LDI SP, HHLL.
    LdiSpHhll,
    /// `0x22` LDM rx, HHLL.
    LdmRxHhll,
    /// `0x23` LDM rx, ry.
    LdmRxRy,
    /// `0x24` MOV rx, ry.
    MovRxRy,
    /// `0x30` STM rx, HHLL.
    StmRxHhll,
    /// `0x31` STM rx, ry.
    StmRxRy,
    /// `0x40` ADDI rx, HHLL.
    AddiRxHhll,
    /// `0x41` ADD rx, ry.
    AddRxRy,
    /// `0x42` ADD rx, ry, rz.
    AddRxRyRz,
    /// `0x50` SUBI rx, HHLL.
    SubiRxHhll,
    /// `0x51` SUB rx, ry.
    SubRxRy,
    /// `0x52` SUB rx, ry, rz.
    SubRxRyRz,
    /// `0x53` CMPI rx, HHLL.
    CmpiRxHhll,
    /// `0x54` CMP rx, ry.
    CmpRxRy,
    /// `0x60` ANDI rx, HHLL.
    AndiRxHhll,
    /// `0x61` AND rx, ry.
    AndRxRy,
    /// `0x62` AND rx, ry, rz.
    AndRxRyRz,
    /// `0x63` TSTI rx, HHLL.
    TstiRxHhll,
    /// `0x64` TST rx, ry.
    TstRxRy,
    /// `0x70` ORI rx, HHLL.
    OriRxHhll,
    /// `0x71` OR rx, ry.
    OrRxRy,
    /// `0x72` OR rx, ry, rz.
    OrRxRyRz,
    /// `0x80` XORI rx, HHLL.
    XoriRxHhll,
    /// `0x81` XOR rx, ry.
    XorRxRy,
    /// `0x82` XOR rx, ry, rz.
    XorRxRyRz,
    /// `0x90` MULI rx, HHLL.
    MuliRxHhll,
    /// `0x91` MUL rx, ry.
    MulRxRy,
    /// `0x92` MUL rx, ry, rz.
    MulRxRyRz,
    /// `0xA0` DIVI rx, HHLL.
    DiviRxHhll,
    /// `0xA1` DIV rx, ry.
    DivRxRy,
    /// `0xA2` DIV rx, ry, rz.
    DivRxRyRz,
    /// `0xA3` MODI rx, HHLL.
    ModiRxHhll,
    /// `0xA4` MOD rx, ry.
    ModRxRy,
    /// `0xA5` MOD rx, ry, rz.
    ModRxRyRz,
    /// `0xA6` REMI rx, HHLL.
    RemiRxHhll,
    /// `0xA7` REM rx, ry.
    RemRxRy,
    /// `0xA8` REM rx, ry, rz.
    RemRxRyRz,
    /// `0xB0` SHL rx, n.
    ShlRxN,
    /// `0xB1` SHR rx, n.
    ShrRxN,
    /// `0xB2` SAR rx, n.
    SarRxN,
    /// `0xB3` SHL rx, ry.
    ShlRxRy,
    /// `0xB4` SHR rx, ry.
    ShrRxRy,
    /// `0xB5` SAR rx, ry.
    SarRxRy,
    /// `0xC0` PUSH rx.
    PushRx,
    /// `0xC1` POP rx.
    PopRx,
    /// `0xC2` PUSHALL.
    Pushall,
    /// `0xC3` POPALL.
    Popall,
    /// `0xC4` PUSHF.
    Pushf,
    /// `0xC5` POPF.
    Popf,
    /// `0xD0` PAL HHLL.
    PalHhll,
    /// `0xD1` PAL rx.
    PalRx,
    /// `0xE0` NOTI rx, HHLL.
    NotiRxHhll,
    /// `0xE1` NOT rx.
    NotRx,
    /// `0xE2` NOT rx, ry.
    NotRxRy,
    /// `0xE3` NEGI rx, HHLL.
    NegiRxHhll,
    /// `0xE4` NEG rx.
    NegRx,
    /// `0xE5` NEG rx, ry.
    NegRxRy,
}

/// The handler of opcode byte `b`.
pub open spec fn opcode_of(b: int) -> Opcode {
    if b == 0x00 {
        Opcode::Nop
    } else if b == 0x01 {
        Opcode::Cls
    } else if b == 0x02 {
        Opcode::Vblnk
    } else if b == 0x03 {
        Opcode::BgcN
    } else if b == 0x04 {
        Opcode::SprHhll
    } else if b == 0x05 {
        Opcode::DrwRxRyHhll
    } else if b == 0x06 {
        Opcode::DrwRxRyRz
    } else if b == 0x07 {
        Opcode::RndRxHhll
    } else if b == 0x08 {
        Opcode::Flip
    } else if b == 0x09 {
        Opcode::Snd0
    } else if b == 0x0A {
        Opcode::Snd1Hhll
    } else if b == 0x0B {
        Opcode::Snd2Hhll
    } else if b == 0x0C {
        Opcode::Snd3Hhll
    } else if b == 0x0D {
        Opcode::SnpRxHhll
    } else if b == 0x0E {
        Opcode::SngAdVtsr
    } else if b == 0x10 {
        Opcode::JmpHhll
    } else if b == 0x11 {
        Opcode::JmcHhll
    } else if b == 0x12 {
        Opcode::JxHhll
    } else if b == 0x13 {
        Opcode::JmeRxRyHhll
    } else if b == 0x14 {
        Opcode::CallHhll
    } else if b == 0x15 {
        Opcode::Ret
    } else if b == 0x16 {
        Opcode::JmpRx
    } else if b == 0x17 {
        Opcode::CxHhll
    } else if b == 0x18 {
        Opcode::CallRx
    } else if b == 0x20 {
        Opcode::LdiRxHhll
    } else if b == 0x21 {
        Opcode::LdiSpHhll
    } else if b == 0x22 {
        Opcode::LdmRxHhll
    } else if b == 0x23 {
        Opcode::LdmRxRy
    } else if b == 0x24 {
        Opcode::MovRxRy
    } else if b == 0x30 {
        Opcode::StmRxHhll
    } else if b == 0x31 {
        Opcode::StmRxRy
    } else if b == 0x40 {
        Opcode::AddiRxHhll
    } else if b == 0x41 {
        Opcode::AddRxRy
    } else if b == 0x42 {
        Opcode::AddRxRyRz
    } else if b == 0x50 {
        Opcode::SubiRxHhll
    } else if b == 0x51 {
        Opcode::SubRxRy
    } else if b == 0x52 {
        Opcode::SubRxRyRz
    } else if b == 0x53 {
        Opcode::CmpiRxHhll
    } else if b == 0x54 {
        Opcode::CmpRxRy
    } else if b == 0x60 {
        Opcode::AndiRxHhll
    } else if b == 0x61 {
        Opcode::AndRxRy
    } else if b == 0x62 {
        Opcode::AndRxRyRz
    } else if b == 0x63 {
        Opcode::TstiRxHhll
    } else if b == 0x64 {
        Opcode::TstRxRy
    } else if b == 0x70 {
        Opcode::OriRxHhll
    } else if b == 0x71 {
        Opcode::OrRxRy
    } else if b == 0x72 {
        Opcode::OrRxRyRz
    } else if b == 0x80 {
        Opcode::XoriRxHhll
    } else if b == 0x81 {
        Opcode::XorRxRy
    } else if b == 0x82 {
        Opcode::XorRxRyRz
    } else if b == 0x90 {
        Opcode::MuliRxHhll
    } else if b == 0x91 {
        Opcode::MulRxRy
    } else if b == 0x92 {
        Opcode::MulRxRyRz
    } else if b == 0xA0 {
        Opcode::DiviRxHhll
    } else if b == 0xA1 {
        Opcode::DivRxRy
    } else if b == 0xA2 {
        Opcode::DivRxRyRz
    } else if b == 0xA3 {
        Opcode::ModiRxHhll
    } else if b == 0xA4 {
        Opcode::ModRxRy
    } else if b == 0xA5 {
        Opcode::ModRxRyRz
    } else if b == 0xA6 {
        Opcode::RemiRxHhll
    } else if b == 0xA7 {
        Opcode::RemRxRy
    } else if b == 0xA8 {
        Opcode::RemRxRyRz
    } else if b == 0xB0 {
        Opcode::ShlRxN
    } else if b == 0xB1 {
        Opcode::ShrRxN
    } else if b == 0xB2 {
        Opcode::SarRxN
    } else if b == 0xB3 {
        Opcode::ShlRxRy
    } else if b == 0xB4 {
        Opcode::ShrRxRy
    } else if b == 0xB5 {
        Opcode::SarRxRy
    } else if b == 0xC0 {
        Opcode::PushRx
    } else if b == 0xC1 {
        Opcode::PopRx
    } else if b == 0xC2 {
        Opcode::Pushall
    } else if b == 0xC3 {
        Opcode::Popall
    } else if b == 0xC4 {
        Opcode::Pushf
    } else if b == 0xC5 {
        Opcode::Popf
    } else if b == 0xD0 {
        Opcode::PalHhll
    } else if b == 0xD1 {
        Opcode::PalRx
    } else if b == 0xE0 {
        Opcode::NotiRxHhll
    } else if b == 0xE1 {
        Opcode::NotRx
    } else if b == 0xE2 {
        Opcode::NotRxRy
    } else if b == 0xE3 {
        Opcode::NegiRxHhll
    } else if b == 0xE4 {
        Opcode::NegRx
    } else if b == 0xE5 {
        Opcode::NegRxRy
    } else {
        Opcode::Invalid
    }
}

/// The dispatch table: entry `b` is the handler of opcode byte `b`.
pub open spec fn opcode_table() -> Seq<Opcode> {
    Seq::new(256, |b: int| opcode_of(b))
}

/// The handler of an opcode byte.
pub fn decode(b: u8) -> (op: Opcode)
    ensures
        op == opcode_of(b as int),
{
    match b {
        0x00 => Opcode::Nop,
        0x01 => Opcode::Cls,
        0x02 => Opcode::Vblnk,
        0x03 => Opcode::BgcN,
        0x04 => Opcode::SprHhll,
        0x05 => Opcode::DrwRxRyHhll,
        0x06 => Opcode::DrwRxRyRz,
        0x07 => Opcode::RndRxHhll,
        0x08 => Opcode::Flip,
        0x09 => Opcode::Snd0,
        0x0A => Opcode::Snd1Hhll,
        0x0B => Opcode::Snd2Hhll,
        0x0C => Opcode::Snd3Hhll,
        0x0D => Opcode::SnpRxHhll,
        0x0E => Opcode::SngAdVtsr,
        0x10 => Opcode::JmpHhll,
        0x11 => Opcode::JmcHhll,
        0x12 => Opcode::JxHhll,
        0x13 => Opcode::JmeRxRyHhll,
        0x14 => Opcode::CallHhll,
        0x15 => Opcode::Ret,
        0x16 => Opcode::JmpRx,
        0x17 => Opcode::CxHhll,
        0x18 => Opcode::CallRx,
        0x20 => Opcode::LdiRxHhll,
        0x21 => Opcode::LdiSpHhll,
        0x22 => Opcode::LdmRxHhll,
        0x23 => Opcode::LdmRxRy,
        0x24 => Opcode::MovRxRy,
        0x30 => Opcode::StmRxHhll,
        0x31 => Opcode::StmRxRy,
        0x40 => Opcode::AddiRxHhll,
        0x41 => Opcode::AddRxRy,
        0x42 => Opcode::AddRxRyRz,
        0x50 => Opcode::SubiRxHhll,
        0x51 => Opcode::SubRxRy,
        0x52 => Opcode::SubRxRyRz,
        0x53 => Opcode::CmpiRxHhll,
        0x54 => Opcode::CmpRxRy,
        0x60 => Opcode::AndiRxHhll,
        0x61 => Opcode::AndRxRy,
        0x62 => Opcode::AndRxRyRz,
        0x63 => Opcode::TstiRxHhll,
        0x64 => Opcode::TstRxRy,
        0x70 => Opcode::OriRxHhll,
        0x71 => Opcode::OrRxRy,
        0x72 => Opcode::OrRxRyRz,
        0x80 => Opcode::XoriRxHhll,
        0x81 => Opcode::XorRxRy,
        0x82 => Opcode::XorRxRyRz,
        0x90 => Opcode::MuliRxHhll,
        0x91 => Opcode::MulRxRy,
        0x92 => Opcode::MulRxRyRz,
        0xA0 => Opcode::DiviRxHhll,
        0xA1 => Opcode::DivRxRy,
        0xA2 => Opcode::DivRxRyRz,
        0xA3 => Opcode::ModiRxHhll,
        0xA4 => Opcode::ModRxRy,
        0xA5 => Opcode::ModRxRyRz,
        0xA6 => Opcode::RemiRxHhll,
        0xA7 => Opcode::RemRxRy,
        0xA8 => Opcode::RemRxRyRz,
        0xB0 => Opcode::ShlRxN,
        0xB1 => Opcode::ShrRxN,
        0xB2 => Opcode::SarRxN,
        0xB3 => Opcode::ShlRxRy,
        0xB4 => Opcode::ShrRxRy,
        0xB5 => Opcode::SarRxRy,
        0xC0 => Opcode::PushRx,
        0xC1 => Opcode::PopRx,
        0xC2 => Opcode::Pushall,
        0xC3 => Opcode::Popall,
        0xC4 => Opcode::Pushf,
        0xC5 => Opcode::Popf,
        0xD0 => Opcode::PalHhll,
        0xD1 => Opcode::PalRx,
        0xE0 => Opcode::NotiRxHhll,
        0xE1 => Opcode::NotRx,
        0xE2 => Opcode::NotRxRy,
        0xE3 => Opcode::NegiRxHhll,
        0xE4 => Opcode::NegRx,
        0xE5 => Opcode::NegRxRy,
        _ => Opcode::Invalid,
    }
}

/// Builds the dispatch table, one entry for each of the 256 opcode bytes.
pub fn build_table() -> (ops: Vec<Opcode>)
    ensures
        ops@ == opcode_table(),
{
    let mut ops: Vec<Opcode> = Vec::new();
    let mut b: u8 = 0;
    while ops.len() < 256
        invariant
            ops@.len() <= 256,
            ops@.len() < 256 ==> b == ops@.len(),
            forall|k: int| 0 <= k < ops@.len() ==> ops@[k] == opcode_of(k),
        decreases 256 - ops@.len(),
    {
        ops.push(decode(b));
        if b < 255 {
            b = b + 1;
        }
    }
    assert(ops@ =~= opcode_table());
    ops
}

} // verus!
