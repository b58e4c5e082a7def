use vstd::prelude::*;

verus! {

/// A CHIP-8 instruction, as the disassembler tells them apart.
///
/// An instruction is two bytes `AB CD`, read as four nibbles `A`, `B`, `C`, `D`:
/// `A` names the family, `B` (`x`) and `C` (`y`) are register numbers, `CD` is an
/// immediate byte, `D` is a small immediate and `BCD` is a 12-bit address.
#[derive(Clone, Copy, Debug, PartialEq, Eq, Structural)]
pub enum Instruction {
    /// `00E0`
    ClearScreen,
    /// `00EE`
    Return,
    /// `1NNN`
    Jump { addr: u16 },
    /// `2NNN`
    Call { addr: u16 },
    /// `3XNN`
    SkipIfEqual { x: u8, value: u8 },
    /// `4XNN`
    SkipIfNotEqual { x: u8, value: u8 },
    /// `5XY_` (the last nibble is not looked at)
    SkipIfRegistersEqual { x: u8, y: u8 },
    /// `6XNN`
    Store { x: u8, value: u8 },
    /// `7XNN`
    AddValue { x: u8, value: u8 },
    /// `8XY0`
    Copy { x: u8, y: u8 },
    /// `8XY1`
    Or { x: u8, y: u8 },
    /// `8XY2`
    And { x: u8, y: u8 },
    /// `8XY3`
    Xor { x: u8, y: u8 },
    /// `8XY4`
    AddRegisters { x: u8, y: u8 },
    /// `8XY5`
    Sub { x: u8, y: u8 },
    /// `8XY6`
    ShiftRight { x: u8, y: u8 },
    /// `8XY7`
    SubReversed { x: u8, y: u8 },
    /// `8XYE`
    ShiftLeft { x: u8, y: u8 },
    /// `9XY_` (the last nibble is not looked at)
    SkipIfRegistersNotEqual { x: u8, y: u8 },
    /// `ANNN`
    SetIndex { addr: u16 },
    /// `BNNN`
    JumpPlusV0 { addr: u16 },
    /// `CXNN`
    Random { x: u8, mask: u8 },
    /// `DXYN`
    Draw { x: u8, y: u8, height: u8 },
    /// `EX9E`
    SkipIfKeyPressed { x: u8 },
    /// `EXA1`
    SkipIfKeyNotPressed { x: u8 },
    /// `FX07`
    ReadDelayTimer { x: u8 },
    /// `FX0A`
    WaitForKey { x: u8 },
    /// `FX15`
    SetDelayTimer { x: u8 },
    /// `FX18`
    SetSoundTimer { x: u8 },
    /// `FX1E`
    AddToIndex { x: u8 },
    /// `FX29`
    SpriteAddress { x: u8 },
    /// `FX33`
    StoreBcd { x: u8 },
    /// `FX55`
    StoreRegisters { x: u8 },
    /// `FX65`
    LoadRegisters { x: u8 },
}

/// The high nibble of a byte.
pub open spec fn high_nibble(b: u8) -> u8 {
    b / 16
}

/// The low nibble of a byte.
pub open spec fn low_nibble(b: u8) -> u8 {
    b % 16
}

/// The 12-bit address `BCD` of the instruction `AB CD`.
pub open spec fn address_of(ab: u8, cd: u8) -> u16 {
    (low_nibble(ab) * 256 + cd) as u16
}

/// The instruction that the two bytes `ab`, `cd` encode, or `None` where they encode
/// none of the forms above.
pub open spec fn decode(ab: u8, cd: u8) -> Option<Instruction> {
    let x = low_nibble(ab);
    let y = high_nibble(cd);
    let n = low_nibble(cd);
    let addr = address_of(ab, cd);
    match high_nibble(ab) {
        0 => if cd == 0xE0 {
            Some(Instruction::ClearScreen)
        } else if cd == 0xEE {
            Some(Instruction::Return)
        } else {
            None
        },
        1 => Some(Instruction::Jump { addr }),
        2 => Some(Instruction::Call { addr }),
        3 => Some(Instruction::SkipIfEqual { x, value: cd }),
        4 => Some(Instruction::SkipIfNotEqual { x, value: cd }),
        5 => Some(Instruction::SkipIfRegistersEqual { x, y }),
        6 => Some(Instruction::Store { x, value: cd }),
        7 => Some(Instruction::AddValue { x, value: cd }),
        8 => match n {
            0 => Some(Instruction::Copy { x, y }),
            1 => Some(Instruction::Or { x, y }),
            2 => Some(Instruction::And { x, y }),
            3 => Some(Instruction::Xor { x, y }),
            4 => Some(Instruction::AddRegisters { x, y }),
            5 => Some(Instruction::Sub { x, y }),
            6 => Some(Instruction::ShiftRight { x, y }),
            7 => Some(Instruction::SubReversed { x, y }),
            0xE => Some(Instruction::ShiftLeft { x, y }),
            _ => None,
        },
        9 => Some(Instruction::SkipIfRegistersNotEqual { x, y }),
        0xA => Some(Instruction::SetIndex { addr }),
        0xB => Some(Instruction::JumpPlusV0 { addr }),
        0xC => Some(Instruction::Random { x, mask: cd }),
        0xD => Some(Instruction::Draw { x, y, height: n }),
        0xE => if cd == 0x9E {
            Some(Instruction::SkipIfKeyPressed { x })
        } else if cd == 0xA1 {
            Some(Instruction::SkipIfKeyNotPressed { x })
        } else {
            None
        },
        _ => if cd == 0x07 {
            Some(Instruction::ReadDelayTimer { x })
        } else if cd == 0x0A {
            Some(Instruction::WaitForKey { x })
        } else if cd == 0x15 {
            Some(Instruction::SetDelayTimer { x })
        } else if cd == 0x18 {
            Some(Instruction::SetSoundTimer { x })
        } else if cd == 0x1E {
            Some(Instruction::AddToIndex { x })
        } else if cd == 0x29 {
            Some(Instruction::SpriteAddress { x })
        } else if cd == 0x33 {
            Some(Instruction::StoreBcd { x })
        } else if cd == 0x55 {
            Some(Instruction::StoreRegisters { x })
        } else if cd == 0x65 {
            Some(Instruction::LoadRegisters { x })
        } else {
            None
        },
    }
}

/// Splits a byte into its high and low nibble.
fn split_nibbles(byte: u8) -> (res: (u8, u8))
    ensures
        res.0 == high_nibble(byte),
        res.1 == low_nibble(byte),
{
    let high = (byte & 0xF0) >> 4;
    let low = byte & 0xF;
    assert(high == byte / 16 && low == byte % 16) by (bit_vector)
        requires
            high == (byte & 0xF0) >> 4,
            low == byte & 0xF,
    ;
    (high, low)
}

/// Decodes the instruction made of the bytes `ab` (first) and `cd` (second).
pub fn decode_instruction(ab: u8, cd: u8) -> (res: Option<Instruction>)
    ensures
        res == decode(ab, cd),
{
    let (a, x) = split_nibbles(ab);
    let (y, n) = split_nibbles(cd);
    let addr: u16 = (x as u16) * 256 + (cd as u16);
    match a {
        0 => if cd == 0xE0 {
            Some(Instruction::ClearScreen)
        } else if cd == 0xEE {
            Some(Instruction::Return)
        } else {
            None
        },
        1 => Some(Instruction::Jump { addr }),
        2 => Some(Instruction::Call { addr }),
        3 => Some(Instruction::SkipIfEqual { x, value: cd }),
        4 => Some(Instruction::SkipIfNotEqual { x, value: cd }),
        5 => Some(Instruction::SkipIfRegistersEqual { x, y }),
        6 => Some(Instruction::Store { x, value: cd }),
        7 => Some(Instruction::AddValue { x, value: cd }),
        8 => match n {
            0 => Some(Instruction::Copy { x, y }),
            1 => Some(Instruction::Or { x, y }),
            2 => Some(Instruction::And { x, y }),
            3 => Some(Instruction::Xor { x, y }),
            4 => Some(Instruction::AddRegisters { x, y }),
            5 => Some(Instruction::Sub { x, y }),
            6 => Some(Instruction::ShiftRight { x, y }),
            7 => Some(Instruction::SubReversed { x, y }),
            0xE => Some(Instruction::ShiftLeft { x, y }),
            _ => None,
        },
        9 => Some(Instruction::SkipIfRegistersNotEqual { x, y }),
        0xA => Some(Instruction::SetIndex { addr }),
        0xB => Some(Instruction::JumpPlusV0 { addr }),
        0xC => Some(Instruction::Random { x, mask: cd }),
        0xD => Some(Instruction::Draw { x, y, height: n }),
        0xE => if cd == 0x9E {
            Some(Instruction::SkipIfKeyPressed { x })
        } else if cd == 0xA1 {
            Some(Instruction::SkipIfKeyNotPressed { x })
        } else {
            None
        },
        _ => if cd == 0x07 {
            Some(Instruction::ReadDelayTimer { x })
        } else if cd == 0x0A {
            Some(Instruction::WaitForKey { x })
        } else if cd == 0x15 {
            Some(Instruction::SetDelayTimer { x })
        } else if cd == 0x18 {
            Some(Instruction::SetSoundTimer { x })
        } else if cd == 0x1E {
            Some(Instruction::AddToIndex { x })
        } else if cd == 0x29 {
            Some(Instruction::SpriteAddress { x })
        } else if cd == 0x33 {
            Some(Instruction::StoreBcd { x })
        } else if cd == 0x55 {
            Some(Instruction::StoreRegisters { x })
        } else if cd == 0x65 {
            Some(Instruction::LoadRegisters { x })
        } else {
            None
        },
    }
}

/// The two bytes `A X`, `Y N` made of four nibbles.
pub open spec fn nibbles(a: u8, x: u8, y: u8, n: u8) -> (u8, u8) {
    ((a * 16 + x) as u8, (y * 16 + n) as u8)
}

/// Whether the operands of an instruction fit their fields: registers, heights and the
/// ignored nibbles are nibbles, addresses have twelve bits.
pub open spec fn operands_fit(i: Instruction) -> bool {
    match i {
        Instruction::Jump { addr } | Instruction::Call { addr } | Instruction::SetIndex { addr }
        | Instruction::JumpPlusV0 { addr } => addr < 0x1000,
        Instruction::SkipIfEqual { x, .. } | Instruction::SkipIfNotEqual { x, .. }
        | Instruction::Store { x, .. } | Instruction::AddValue { x, .. } | Instruction::Random {
            x,
            ..
        } | Instruction::SkipIfKeyPressed { x } | Instruction::SkipIfKeyNotPressed { x }
        | Instruction::ReadDelayTimer { x } | Instruction::WaitForKey { x }
        | Instruction::SetDelayTimer { x } | Instruction::SetSoundTimer { x }
        | Instruction::AddToIndex { x } | Instruction::SpriteAddress { x }
        | Instruction::StoreBcd { x } | Instruction::StoreRegisters { x }
        | Instruction::LoadRegisters { x } => x < 16,
        Instruction::SkipIfRegistersEqual { x, y } | Instruction::Copy { x, y } | Instruction::Or {
            x,
            y,
        } | Instruction::And { x, y } | Instruction::Xor { x, y } | Instruction::AddRegisters {
            x,
            y,
        } | Instruction::Sub { x, y } | Instruction::ShiftRight { x, y }
        | Instruction::SubReversed { x, y } | Instruction::ShiftLeft { x, y }
        | Instruction::SkipIfRegistersNotEqual { x, y } => x < 16 && y < 16,
        Instruction::Draw { x, y, height } => x < 16 && y < 16 && height < 16,
        Instruction::ClearScreen | Instruction::Return => true,
    }
}

/// The standard encoding of an instruction; the nibble that `5XY_` and `9XY_` leave
/// unread is written as 0.
pub open spec fn encode(i: Instruction) -> (u8, u8) {
    match i {
        Instruction::ClearScreen => (0x00, 0xE0),
        Instruction::Return => (0x00, 0xEE),
        Instruction::Jump { addr } => ((0x10 + addr / 256) as u8, (addr % 256) as u8),
        Instruction::Call { addr } => ((0x20 + addr / 256) as u8, (addr % 256) as u8),
        Instruction::SkipIfEqual { x, value } => ((0x30 + x) as u8, value),
        Instruction::SkipIfNotEqual { x, value } => ((0x40 + x) as u8, value),
        Instruction::SkipIfRegistersEqual { x, y } => nibbles(5, x, y, 0),
        Instruction::Store { x, value } => ((0x60 + x) as u8, value),
        Instruction::AddValue { x, value } => ((0x70 + x) as u8, value),
        Instruction::Copy { x, y } => nibbles(8, x, y, 0),
        Instruction::Or { x, y } => nibbles(8, x, y, 1),
        Instruction::And { x, y } => nibbles(8, x, y, 2),
        Instruction::Xor { x, y } => nibbles(8, x, y, 3),
        Instruction::AddRegisters { x, y } => nibbles(8, x, y, 4),
        Instruction::Sub { x, y } => nibbles(8, x, y, 5),
        Instruction::ShiftRight { x, y } => nibbles(8, x, y, 6),
        Instruction::SubReversed { x, y } => nibbles(8, x, y, 7),
        Instruction::ShiftLeft { x, y } => nibbles(8, x, y, 0xE),
        Instruction::SkipIfRegistersNotEqual { x, y } => nibbles(9, x, y, 0),
        Instruction::SetIndex { addr } => ((0xA0 + addr / 256) as u8, (addr % 256) as u8),
        Instruction::JumpPlusV0 { addr } => ((0xB0 + addr / 256) as u8, (addr % 256) as u8),
        Instruction::Random { x, mask } => ((0xC0 + x) as u8, mask),
        Instruction::Draw { x, y, height } => nibbles(0xD, x, y, height),
        Instruction::SkipIfKeyPressed { x } => ((0xE0 + x) as u8, 0x9E),
        Instruction::SkipIfKeyNotPressed { x } => ((0xE0 + x) as u8, 0xA1),
        Instruction::ReadDelayTimer { x } => ((0xF0 + x) as u8, 0x07),
        Instruction::WaitForKey { x } => ((0xF0 + x) as u8, 0x0A),
        Instruction::SetDelayTimer { x } => ((0xF0 + x) as u8, 0x15),
        Instruction::SetSoundTimer { x } => ((0xF0 + x) as u8, 0x18),
        Instruction::AddToIndex { x } => ((0xF0 + x) as u8, 0x1E),
        Instruction::SpriteAddress { x } => ((0xF0 + x) as u8, 0x29),
        Instruction::StoreBcd { x } => ((0xF0 + x) as u8, 0x33),
        Instruction::StoreRegisters { x } => ((0xF0 + x) as u8, 0x55),
        Instruction::LoadRegisters { x } => ((0xF0 + x) as u8, 0x65),
    }
}

/// Every instruction the decoder names is decoded from its own encoding, with its
/// operands read back unchanged.
pub proof fn lemma_decode_encode(i: Instruction)
    requires
        operands_fit(i),
    ensures
        decode(encode(i).0, encode(i).1) == Some(i),
{
}

/// Every pair of bytes that decodes to an instruction re-encodes to the same bytes, except
/// for the nibbles the decoder does not read: the second nibble of `00E0` and `00EE`, and
/// the last nibble of `5XY_` and `9XY_`, which the standard encoding writes as 0.
pub proof fn lemma_encode_decode(ab: u8, cd: u8)
    ensures
        decode(ab, cd) matches Some(i) ==> operands_fit(i) && encode(i) == (
            if high_nibble(ab) == 0 {
                0u8
            } else {
                ab
            },
            if high_nibble(ab) == 5 || high_nibble(ab) == 9 {
                (high_nibble(cd) * 16) as u8
            } else {
                cd
            },
        ),
{
    let addr = address_of(ab, cd) as int;
    assert(ab == high_nibble(ab) * 16 + low_nibble(ab));
    assert(cd == high_nibble(cd) * 16 + low_nibble(cd));
    assert(addr / 256 == low_nibble(ab) && addr % 256 == cd && addr < 0x1000);
}

} // verus!
