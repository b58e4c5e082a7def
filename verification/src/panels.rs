use vstd::prelude::*;

use crate::about::{decoded_text, About};
use crate::digits::{append_decimal, append_hex, decimal, hex, hex_padded};

verus! {

/// The three counters at the top of the "Compute Info" window.
pub struct ComputeInfo {
    pub program_counter: String,
    pub register_i: String,
    pub stack_pointer: String,
}

/// One row of the register table of the "Compute Info" window.
pub struct RegisterRow {
    pub index: String,
    pub register: String,
    pub stack: String,
    pub key: String,
}

/// The instruction read-out of the "Control Flow" window.
pub struct InstructionPanel {
    pub program_counter: String,
    pub previous: String,
    pub previous_text: String,
    pub next: String,
    pub next_text: String,
}

/// `label` followed by `format!("{}", v)`.
fn labelled_decimal(label: &str, v: u64) -> (res: String)
    ensures
        res@ == label@ + decimal(v as nat),
{
    let mut s = String::from_str(label);
    append_decimal(&mut s, v);
    s
}

/// `label` followed by `format!("{:0w$X}", v)` with `w == width`.
fn labelled_hex(label: &str, v: u64, width: usize) -> (res: String)
    ensures
        res@ == label@ + hex_padded(v as nat, width as nat),
{
    let mut s = String::from_str(label);
    append_hex(&mut s, v, width);
    s
}

/// `label` followed by the two bytes of an instruction, `format!("{:02X}{:02X}", high, low)`.
fn instruction_bytes(label: &str, high: u8, low: u8) -> (res: String)
    ensures
        res@ == label@ + hex_padded(high as nat, 2) + hex_padded(low as nat, 2),
{
    let mut s = String::from_str(label);
    append_hex(&mut s, high as u64, 2);
    append_hex(&mut s, low as u64, 2);
    s
}

/// The counters of the "Compute Info" window, in decimal.
pub fn compute_info(program_counter: u64, register_i: u64, stack_pointer: u64) -> (res: ComputeInfo)
    ensures
        res.program_counter@ == "Program Counter: "@ + decimal(program_counter as nat),
        res.register_i@ == "Register I: "@ + decimal(register_i as nat),
        res.stack_pointer@ == "Stack Pointer: "@ + decimal(stack_pointer as nat),
{
    ComputeInfo {
        program_counter: labelled_decimal("Program Counter: ", program_counter),
        register_i: labelled_decimal("Register I: ", register_i),
        stack_pointer: labelled_decimal("Stack Pointer: ", stack_pointer),
    }
}

/// Row `index` of the register table: the index, the register and the stack entry of that
/// index in hex, and whether the key of that index is pressed.
pub fn register_row(index: u64, register: u64, stack: u64, key_pressed: bool) -> (res: RegisterRow)
    ensures
        res.index@ == "0x"@ + hex(index as nat),
        res.register@ == "0x"@ + hex_padded(register as nat, 2),
        res.stack@ == "0x"@ + hex_padded(stack as nat, 4),
        res.key@ == (if key_pressed { "Pressed"@ } else { ""@ }),
{
    RegisterRow {
        index: labelled_hex("0x", index, 0),
        register: labelled_hex("0x", register, 2),
        stack: labelled_hex("0x", stack, 4),
        key: String::from_str(if key_pressed { "Pressed" } else { "" }),
    }
}

/// The program counter, the instruction just run (the two bytes before the program
/// counter) and the instruction to run next (the two bytes at it), each with its
/// description.
pub fn instruction_panel(memory: &[u8], program_counter: usize) -> (res: InstructionPanel)
    requires
        2 <= program_counter,
        program_counter + 1 < memory@.len(),
    ensures
        res.program_counter@ == "Program Counter: 0x"@ + hex_padded(program_counter as nat, 4),
        res.previous@ == "Previous Instruction: 0x"@ + hex_padded(
            memory@[program_counter - 2] as nat,
            2,
        ) + hex_padded(memory@[program_counter - 1] as nat, 2),
        res.previous_text@ == decoded_text(
            memory@[program_counter - 2],
            memory@[program_counter - 1],
        ),
        res.next@ == "Next Instruction: 0x"@ + hex_padded(memory@[program_counter as int] as nat, 2)
            + hex_padded(memory@[program_counter + 1] as nat, 2),
        res.next_text@ == decoded_text(memory@[program_counter as int], memory@[program_counter + 1]),
{
    let prev_high = memory[program_counter - 2];
    let prev_low = memory[program_counter - 1];
    let next_high = memory[program_counter];
    let next_low = memory[program_counter + 1];
    let previous = instruction_bytes("Previous Instruction: 0x", prev_high, prev_low);
    let next = instruction_bytes("Next Instruction: 0x", next_high, next_low);
    InstructionPanel {
        program_counter: labelled_hex("Program Counter: 0x", program_counter as u64, 4),
        previous,
        previous_text: About::chip_8_decode(prev_high, prev_low),
        next,
        next_text: About::chip_8_decode(next_high, next_low),
    }
}

} // verus!
