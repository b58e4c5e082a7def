use vstd::prelude::*;

use crate::digits::{append_hex, digit_char, digits_of, hex, hex_padded, zeros};
use crate::instruction::{decode, decode_instruction, Instruction};

verus! {

/// Text shown in the "About" window of the emulator.
pub open spec fn about_text() -> Seq<char> {
    "The Chip-8 is an emulator. This one is written in rust and presented with egui."@
}

/// A register number as the descriptions write it: `{:X}`.
pub open spec fn reg(x: u8) -> Seq<char> {
    hex(x as nat)
}

/// A byte as the descriptions write it: `{:02X}`.
pub open spec fn byte2(v: u8) -> Seq<char> {
    hex_padded(v as nat, 2)
}

/// A 12-bit address as the descriptions write it: `{:X}{:02X}` of its high nibble and low
/// byte, that is three upper-case hex digits.
pub open spec fn addr3(a: u16) -> Seq<char> {
    hex_padded(a as nat, 3)
}

/// The text of a command the disassembler does not know.
pub open spec fn unknown_text() -> Seq<char> {
    "Unknown Command"@
}

/// The human readable description of an instruction.
pub open spec fn description(i: Instruction) -> Seq<char> {
    match i {
        Instruction::ClearScreen => "Clear Screen"@,
        Instruction::Return => "Return from Subroutine"@,
        Instruction::Jump { addr } => "Jump to address 0x"@ + addr3(addr),
        Instruction::Call { addr } => "Execute subroutine at address: 0x"@ + addr3(addr),
        Instruction::SkipIfEqual { x, value } => "Skip next instruction if register "@ + reg(x)
            + " is 0x"@ + byte2(value),
        Instruction::SkipIfNotEqual { x, value } => "Skip next instruction if register "@ + reg(
            x,
        ) + " is not 0x"@ + byte2(value),
        Instruction::SkipIfRegistersEqual { x, y } => "Skip next instruction if register "@ + reg(
            x,
        ) + " is equal to register "@ + reg(y),
        Instruction::Store { x, value } => "Store value 0x"@ + byte2(value) + " into register "@
            + reg(x),
        Instruction::AddValue { x, value } => "Add value 0x"@ + byte2(value) + " to register"@
            + reg(x),
        Instruction::Copy { x, y } => "Store value of register "@ + reg(y) + " into register"@
            + reg(x),
        Instruction::Or { x, y } => "Set register "@ + reg(x) + " to register "@ + reg(x)
            + " OR register "@ + reg(y),
        Instruction::And { x, y } => "Set register "@ + reg(x) + " to register "@ + reg(x)
            + " AND register "@ + reg(y),
        Instruction::Xor { x, y } => "Set register "@ + reg(x) + " to register "@ + reg(x)
            + " XOR register "@ + reg(y),
        Instruction::AddRegisters { x, y } => "Set register "@ + reg(x) + " to register "@ + reg(x)
            + " PLUS register "@ + reg(y),
        Instruction::Sub { x, y } => "Set register "@ + reg(x) + " to register "@ + reg(x)
            + " MINUS register "@ + reg(y),
        Instruction::ShiftRight { x, y } => "Set register "@ + reg(x) + " to register "@ + reg(y)
            + " shifted RIGHT one bit"@,
        Instruction::SubReversed { x, y } => "Set register "@ + reg(x) + " to register "@ + reg(y)
            + " MINUS register "@ + reg(x),
        Instruction::ShiftLeft { x, y } => "Set register "@ + reg(x) + " to register "@ + reg(y)
            + " shifted LEFT one bit"@,
        Instruction::SkipIfRegistersNotEqual { x, y } => "Skip next instruction if register "@
            + reg(x) + " is not equal to register "@ + reg(y),
        Instruction::SetIndex { addr } => "Store memory address 0x"@ + addr3(addr)
            + " into Register I"@,
        Instruction::JumpPlusV0 { addr } => "Jump to address 0x"@ + addr3(addr)
            + " PLUS register 0"@,
        Instruction::Random { x, mask } => "Set register "@ + reg(x)
            + " to a random number masked by "@ + byte2(mask),
        Instruction::Draw { x, y, height } =>
            "Draw sprite located in memory at register I at X location in register "@ + reg(x)
                + " and Y location in register "@ + reg(y) + " and make it 0x"@ + reg(height)
                + " lines tall"@,
        Instruction::SkipIfKeyPressed { x } => "Skip next instruction if key stored in register "@
            + reg(x) + " is pressed."@,
        Instruction::SkipIfKeyNotPressed { x } =>
            "Skip next instruction if key stored in register "@ + reg(x) + " is not pressed."@,
        Instruction::ReadDelayTimer { x } =>
            "Store the current value of the delay timer into register "@ + reg(x),
        Instruction::WaitForKey { x } => "Wait for key press and store it in register "@ + reg(x),
        Instruction::SetDelayTimer { x } => "Set delay timer to value in register "@ + reg(x),
        Instruction::SetSoundTimer { x } => "Set sound timer to value in register "@ + reg(x),
        Instruction::AddToIndex { x } => "Add value in register "@ + reg(x) + " to Register I"@,
        Instruction::SpriteAddress { x } =>
            "Set Register I to the memory address of the sprite data corresponding to the hexadecimal digit stored in register "@
                + reg(x),
        Instruction::StoreBcd { x } =>
            "Store the binary coded decimal equivalent of value in register "@ + reg(x)
                + " to register I, register I+1, and register I+2"@,
        Instruction::StoreRegisters { x } => "Store regsiter 0 to register "@ + reg(x)
            + " to memory starting at location stored in register I."@,
        Instruction::LoadRegisters { x } => "Retrieve regsiter 0 to register "@ + reg(x)
            + " to memory starting at location stored in register I."@,
    }
}

/// No description of an instruction reads "Unknown Command": each begins with another
/// letter.
pub proof fn lemma_description_is_not_unknown(i: Instruction)
    ensures
        description(i) != unknown_text(),
{
    reveal_strlit("Unknown Command");
    let d = description(i);
    reveal_strlit("Clear Screen");
    reveal_strlit("Return from Subroutine");
    reveal_strlit("Jump to address 0x");
    reveal_strlit("Execute subroutine at address: 0x");
    reveal_strlit("Skip next instruction if register ");
    reveal_strlit("Store value 0x");
    reveal_strlit("Add value 0x");
    reveal_strlit("Store value of register ");
    reveal_strlit("Store memory address 0x");
    reveal_strlit("Draw sprite located in memory at register I at X location in register ");
    reveal_strlit("Skip next instruction if key stored in register ");
    reveal_strlit("Store the current value of the delay timer into register ");
    reveal_strlit("Wait for key press and store it in register ");
    reveal_strlit("Set delay timer to value in register ");
    reveal_strlit("Set sound timer to value in register ");
    reveal_strlit("Add value in register ");
    reveal_strlit("Store the binary coded decimal equivalent of value in register ");
    reveal_strlit("Store regsiter 0 to register ");
    reveal_strlit("Retrieve regsiter 0 to register ");
    reveal_strlit("Set register ");
    reveal_strlit(
        "Set Register I to the memory address of the sprite data corresponding to the hexadecimal digit stored in register ",
    );
    assert(d[0] != 'U');
    assert(unknown_text()[0] == 'U');
}

/// The text that the disassembler gives for the instruction bytes `ab`, `cd`.
pub open spec fn decoded_text(ab: u8, cd: u8) -> Seq<char> {
    match decode(ab, cd) {
        Some(i) => description(i),
        None => unknown_text(),
    }
}

/// `format!("{:X}{:02X}", x, cd)` for a nibble `x` is `format!("{:03X}", x * 256 + cd)`: the
/// address field of an instruction reads as its second nibble, then its second byte.
pub proof fn lemma_address_text(x: u8, cd: u8)
    requires
        x < 16,
    ensures
        hex_padded((x * 256 + cd) as nat, 3) == hex(x as nat) + hex_padded(cd as nat, 2),
{
    let v = (x * 256 + cd) as nat;
    let hi = (cd / 16) as nat;
    let lo = (cd % 16) as nat;
    assert(digits_of(x as nat, 16) == seq![digit_char(x as nat)]);
    assert(hex(x as nat) == seq![digit_char(x as nat)]);
    if cd < 16 {
        assert(digits_of(cd as nat, 16) == seq![digit_char(cd as nat)]);
        assert(hex_padded(cd as nat, 2) =~= seq!['0', digit_char(cd as nat)]) by {
            reveal_strlit("0");
        }
    } else {
        assert(cd as nat / 16 == hi && cd as nat % 16 == lo && 1 <= hi < 16);
        assert(digits_of(hi, 16) == seq![digit_char(hi)]);
        assert(digits_of(cd as nat, 16) =~= seq![digit_char(hi), digit_char(lo)]);
        assert(hex_padded(cd as nat, 2) =~= seq![digit_char(hi), digit_char(lo)]);
    }
    if x == 0 {
        assert(v == cd);
        assert(digit_char(0) == '0');
        assert(zeros(1) =~= seq!['0']);
        assert(zeros(2) =~= seq!['0', '0']);
        assert(hex_padded(v, 3) =~= hex(x as nat) + hex_padded(cd as nat, 2));
    } else {
        let w = (x * 16 + hi) as nat;
        assert(v / 16 == w && v % 16 == lo && w >= 16 && w / 16 == x && w % 16 == hi);
        assert(digits_of(w, 16) =~= seq![digit_char(x as nat), digit_char(hi)]);
        assert(digits_of(v, 16) =~= seq![digit_char(x as nat), digit_char(hi), digit_char(lo)]);
        if cd < 16 {
            assert(hi == 0 && lo == cd);
            assert(digit_char(0) == '0');
        }
        assert(hex_padded(v, 3) =~= hex(x as nat) + hex_padded(cd as nat, 2));
    }
}

/// What the disassembler says of the bytes `ab`, `cd`, read as the nibbles `A X Y N`, in
/// the words of each form's format: the operands it names are the nibbles and bytes at
/// their places in the instruction (the second nibble is `X`, the third `Y`, the last `N`,
/// the second byte `NN`), written in upper-case hex.
pub proof fn lemma_decoded_text(ab: u8, cd: u8)
    ensures
        ({
            let a = ab / 16;
            let x = (ab % 16) as nat;
            let y = (cd / 16) as nat;
            let n = (cd % 16) as nat;
            let nn = hex_padded(cd as nat, 2);
            let addr = hex(x) + nn;
            let t = decoded_text(ab, cd);
            &&& a == 0 && cd == 0xE0 ==> t == "Clear Screen"@
            &&& a == 0 && cd == 0xEE ==> t == "Return from Subroutine"@
            &&& a == 0 && cd != 0xE0 && cd != 0xEE ==> t == "Unknown Command"@
            &&& a == 1 ==> t == "Jump to address 0x"@ + addr
            &&& a == 2 ==> t == "Execute subroutine at address: 0x"@ + addr
            &&& a == 3 ==> t == "Skip next instruction if register "@ + hex(x) + " is 0x"@ + nn
            &&& a == 4 ==> t == "Skip next instruction if register "@ + hex(x) + " is not 0x"@
                + nn
            &&& a == 5 ==> t == "Skip next instruction if register "@ + hex(x)
                + " is equal to register "@ + hex(y)
            &&& a == 6 ==> t == "Store value 0x"@ + nn + " into register "@ + hex(x)
            &&& a == 7 ==> t == "Add value 0x"@ + nn + " to register"@ + hex(x)
            &&& a == 8 && n == 0 ==> t == "Store value of register "@ + hex(y) + " into register"@
                + hex(x)
            &&& a == 8 && n == 1 ==> t == "Set register "@ + hex(x) + " to register "@ + hex(x)
                + " OR register "@ + hex(y)
            &&& a == 8 && n == 2 ==> t == "Set register "@ + hex(x) + " to register "@ + hex(x)
                + " AND register "@ + hex(y)
            &&& a == 8 && n == 3 ==> t == "Set register "@ + hex(x) + " to register "@ + hex(x)
                + " XOR register "@ + hex(y)
            &&& a == 8 && n == 4 ==> t == "Set register "@ + hex(x) + " to register "@ + hex(x)
                + " PLUS register "@ + hex(y)
            &&& a == 8 && n == 5 ==> t == "Set register "@ + hex(x) + " to register "@ + hex(x)
                + " MINUS register "@ + hex(y)
            &&& a == 8 && n == 6 ==> t == "Set register "@ + hex(x) + " to register "@ + hex(y)
                + " shifted RIGHT one bit"@
            &&& a == 8 && n == 7 ==> t == "Set register "@ + hex(x) + " to register "@ + hex(y)
                + " MINUS register "@ + hex(x)
            &&& a == 8 && n == 0xE ==> t == "Set register "@ + hex(x) + " to register "@ + hex(y)
                + " shifted LEFT one bit"@
            &&& a == 8 && 8 <= n && n != 0xE ==> t == "Unknown Command"@
            &&& a == 9 ==> t == "Skip next instruction if register "@ + hex(x)
                + " is not equal to register "@ + hex(y)
            &&& a == 0xA ==> t == "Store memory address 0x"@ + addr + " into Register I"@
            &&& a == 0xB ==> t == "Jump to address 0x"@ + addr + " PLUS register 0"@
            &&& a == 0xC ==> t == "Set register "@ + hex(x) + " to a random number masked by "@
                + nn
            &&& a == 0xD ==> t
                == "Draw sprite located in memory at register I at X location in register "@
                + hex(x) + " and Y location in register "@ + hex(y) + " and make it 0x"@ + hex(n)
                + " lines tall"@
            &&& a == 0xE && cd == 0x9E ==> t == "Skip next instruction if key stored in register "@
                + hex(x) + " is pressed."@
            &&& a == 0xE && cd == 0xA1 ==> t
                == "Skip next instruction if key stored in register "@ + hex(x)
                + " is not pressed."@
            &&& a == 0xE && cd != 0x9E && cd != 0xA1 ==> t == "Unknown Command"@
            &&& a == 0xF && cd == 0x07 ==> t
                == "Store the current value of the delay timer into register "@ + hex(x)
            &&& a == 0xF && cd == 0x0A ==> t == "Wait for key press and store it in register "@
                + hex(x)
            &&& a == 0xF && cd == 0x15 ==> t == "Set delay timer to value in register "@ + hex(x)
            &&& a == 0xF && cd == 0x18 ==> t == "Set sound timer to value in register "@ + hex(x)
            &&& a == 0xF && cd == 0x1E ==> t == "Add value in register "@ + hex(x)
                + " to Register I"@
            &&& a == 0xF && cd == 0x29 ==> t
                == "Set Register I to the memory address of the sprite data corresponding to the hexadecimal digit stored in register "@
                + hex(x)
            &&& a == 0xF && cd == 0x33 ==> t
                == "Store the binary coded decimal equivalent of value in register "@ + hex(x)
                + " to register I, register I+1, and register I+2"@
            &&& a == 0xF && cd == 0x55 ==> t == "Store regsiter 0 to register "@ + hex(x)
                + " to memory starting at location stored in register I."@
            &&& a == 0xF && cd == 0x65 ==> t == "Retrieve regsiter 0 to register "@ + hex(x)
                + " to memory starting at location stored in register I."@
            &&& a == 0xF && cd != 0x07 && cd != 0x0A && cd != 0x15 && cd != 0x18 && cd != 0x1E
                && cd != 0x29 && cd != 0x33 && cd != 0x55 && cd != 0x65 ==> t
                == "Unknown Command"@
        }),
{
    let x = ab % 16;
    lemma_address_text(x, cd);
    assert((x * 256 + cd) as u16 as nat == (x * 256 + cd) as nat);
}

/// A new string holding `s`.
fn text(s: &str) -> (res: String)
    ensures
        res@ == s@,
{
    String::from_str(s)
}

fn append_reg(s: &mut String, x: u8)
    ensures
        final(s)@ == old(s)@ + reg(x),
{
    append_hex(s, x as u64, 0);
}

fn append_byte2(s: &mut String, v: u8)
    ensures
        final(s)@ == old(s)@ + byte2(v),
{
    append_hex(s, v as u64, 2);
}

fn append_addr3(s: &mut String, a: u16)
    ensures
        final(s)@ == old(s)@ + addr3(a),
{
    append_hex(s, a as u64, 3);
}

/// `prefix`, the register `x`, then `suffix`.
fn reg_text(prefix: &str, x: u8, suffix: &str) -> (res: String)
    ensures
        res@ == prefix@ + reg(x) + suffix@,
{
    let mut s = text(prefix);
    append_reg(&mut s, x);
    s.append(suffix);
    s
}

/// `prefix`, the register `x`, `middle`, then the register `y`.
fn two_reg_text(prefix: &str, x: u8, middle: &str, y: u8) -> (res: String)
    ensures
        res@ == prefix@ + reg(x) + middle@ + reg(y),
{
    let mut s = text(prefix);
    append_reg(&mut s, x);
    s.append(middle);
    append_reg(&mut s, y);
    s
}

/// "Set register X to register X <op> register Y".
fn arith_text(x: u8, op: &str, y: u8) -> (res: String)
    ensures
        res@ == "Set register "@ + reg(x) + " to register "@ + reg(x) + op@ + reg(y),
{
    let mut s = two_reg_text("Set register ", x, " to register ", x);
    s.append(op);
    append_reg(&mut s, y);
    s
}

/// "Set register X to register Y <suffix>".
fn shift_text(x: u8, y: u8, suffix: &str) -> (res: String)
    ensures
        res@ == "Set register "@ + reg(x) + " to register "@ + reg(y) + suffix@,
{
    let mut s = two_reg_text("Set register ", x, " to register ", y);
    s.append(suffix);
    s
}

/// `prefix`, then the address `a`, then `suffix`.
fn addr_text(prefix: &str, a: u16, suffix: &str) -> (res: String)
    ensures
        res@ == prefix@ + addr3(a) + suffix@,
{
    let mut s = text(prefix);
    append_addr3(&mut s, a);
    s.append(suffix);
    s
}

/// `prefix`, the register `x`, `middle`, then the byte `v`.
fn reg_byte_text(prefix: &str, x: u8, middle: &str, v: u8) -> (res: String)
    ensures
        res@ == prefix@ + reg(x) + middle@ + byte2(v),
{
    let mut s = text(prefix);
    append_reg(&mut s, x);
    s.append(middle);
    append_byte2(&mut s, v);
    s
}

/// `prefix`, the byte `v`, `middle`, then the register `x`.
fn byte_reg_text(prefix: &str, v: u8, middle: &str, x: u8) -> (res: String)
    ensures
        res@ == prefix@ + byte2(v) + middle@ + reg(x),
{
    let mut s = text(prefix);
    append_byte2(&mut s, v);
    s.append(middle);
    append_reg(&mut s, x);
    s
}

/// The human readable description of an instruction.
pub fn describe(i: Instruction) -> (res: String)
    ensures
        res@ == description(i),
{
    proof {
        reveal_strlit("");
    }
    let e = "";
    match i {
        Instruction::ClearScreen => text("Clear Screen"),
        Instruction::Return => text("Return from Subroutine"),
        Instruction::Jump { addr } => {
            let r = addr_text("Jump to address 0x", addr, e);
            assert(r@ =~= description(i));
            r
        },
        Instruction::Call { addr } => {
            let r = addr_text("Execute subroutine at address: 0x", addr, e);
            assert(r@ =~= description(i));
            r
        },
        Instruction::SkipIfEqual { x, value } => reg_byte_text(
            "Skip next instruction if register ",
            x,
            " is 0x",
            value,
        ),
        Instruction::SkipIfNotEqual { x, value } => reg_byte_text(
            "Skip next instruction if register ",
            x,
            " is not 0x",
            value,
        ),
        Instruction::SkipIfRegistersEqual { x, y } => two_reg_text(
            "Skip next instruction if register ",
            x,
            " is equal to register ",
            y,
        ),
        Instruction::Store { x, value } => byte_reg_text(
            "Store value 0x",
            value,
            " into register ",
            x,
        ),
        Instruction::AddValue { x, value } => byte_reg_text("Add value 0x", value, " to register", x),
        Instruction::Copy { x, y } => two_reg_text("Store value of register ", y, " into register", x),
        Instruction::Or { x, y } => arith_text(x, " OR register ", y),
        Instruction::And { x, y } => arith_text(x, " AND register ", y),
        Instruction::Xor { x, y } => arith_text(x, " XOR register ", y),
        Instruction::AddRegisters { x, y } => arith_text(x, " PLUS register ", y),
        Instruction::Sub { x, y } => arith_text(x, " MINUS register ", y),
        Instruction::ShiftRight { x, y } => shift_text(x, y, " shifted RIGHT one bit"),
        Instruction::SubReversed { x, y } => {
            let mut s = two_reg_text("Set register ", x, " to register ", y);
            s.append(" MINUS register ");
            append_reg(&mut s, x);
            s
        },
        Instruction::ShiftLeft { x, y } => shift_text(x, y, " shifted LEFT one bit"),
        Instruction::SkipIfRegistersNotEqual { x, y } => two_reg_text(
            "Skip next instruction if register ",
            x,
            " is not equal to register ",
            y,
        ),
        Instruction::SetIndex { addr } => addr_text(
            "Store memory address 0x",
            addr,
            " into Register I",
        ),
        Instruction::JumpPlusV0 { addr } => addr_text("Jump to address 0x", addr, " PLUS register 0"),
        Instruction::Random { x, mask } => reg_byte_text(
            "Set register ",
            x,
            " to a random number masked by ",
            mask,
        ),
        Instruction::Draw { x, y, height } => {
            let mut s = two_reg_text(
                "Draw sprite located in memory at register I at X location in register ",
                x,
                " and Y location in register ",
                y,
            );
            s.append(" and make it 0x");
            append_reg(&mut s, height);
            s.append(" lines tall");
            s
        },
        Instruction::SkipIfKeyPressed { x } => reg_text(
            "Skip next instruction if key stored in register ",
            x,
            " is pressed.",
        ),
        Instruction::SkipIfKeyNotPressed { x } => reg_text(
            "Skip next instruction if key stored in register ",
            x,
            " is not pressed.",
        ),
        Instruction::ReadDelayTimer { x } => {
            let r = reg_text("Store the current value of the delay timer into register ", x, e);
            assert(r@ =~= description(i));
            r
        },
        Instruction::WaitForKey { x } => {
            let r = reg_text("Wait for key press and store it in register ", x, e);
            assert(r@ =~= description(i));
            r
        },
        Instruction::SetDelayTimer { x } => {
            let r = reg_text("Set delay timer to value in register ", x, e);
            assert(r@ =~= description(i));
            r
        },
        Instruction::SetSoundTimer { x } => {
            let r = reg_text("Set sound timer to value in register ", x, e);
            assert(r@ =~= description(i));
            r
        },
        Instruction::AddToIndex { x } => reg_text("Add value in register ", x, " to Register I"),
        Instruction::SpriteAddress { x } => {
            let r = reg_text(
                "Set Register I to the memory address of the sprite data corresponding to the hexadecimal digit stored in register ",
                x,
                e,
            );
            assert(r@ =~= description(i));
            r
        },
        Instruction::StoreBcd { x } => reg_text(
            "Store the binary coded decimal equivalent of value in register ",
            x,
            " to register I, register I+1, and register I+2",
        ),
        Instruction::StoreRegisters { x } => reg_text(
            "Store regsiter 0 to register ",
            x,
            " to memory starting at location stored in register I.",
        ),
        Instruction::LoadRegisters { x } => reg_text(
            "Retrieve regsiter 0 to register ",
            x,
            " to memory starting at location stored in register I.",
        ),
    }
}

pub struct About {}

impl About {
    /// A short description of the emulator.
    pub fn about() -> (res: String)
        ensures
            res@ == about_text(),
    {
        text("The Chip-8 is an emulator. This one is written in rust and presented with egui.")
    }

    /// Decodes the CHIP-8 instruction made of the bytes `ab` (first) and `cd` (second)
    /// into a human readable description; "Unknown Command" for bytes that encode no
    /// instruction.
    pub fn chip_8_decode(ab: u8, cd: u8) -> (res: String)
        ensures
            res@ == decoded_text(ab, cd),
            decode(ab, cd) is None <==> res@ == unknown_text(),
    {
        proof {
            if let Some(i) = decode(ab, cd) {
                lemma_description_is_not_unknown(i);
            }
        }
        match decode_instruction(ab, cd) {
            Some(i) => describe(i),
            None => text("Unknown Command"),
        }
    }
}

} // verus!
