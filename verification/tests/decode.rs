use chip8eframe::about::About;
use chip8eframe::instruction::{decode_instruction, Instruction};

fn decode(op: u16) -> String {
    About::chip_8_decode((op >> 8) as u8, (op & 0xFF) as u8)
}

#[test]
fn about_text() {
    assert_eq!(
        About::about(),
        "The Chip-8 is an emulator. This one is written in rust and presented with egui."
    );
}

#[test]
fn system_instructions() {
    assert_eq!(decode(0x00E0), "Clear Screen");
    assert_eq!(decode(0x00EE), "Return from Subroutine");
    // The second nibble of the 0 family is not read.
    assert_eq!(decode(0x07E0), "Clear Screen");
    assert_eq!(decode(0x0FEE), "Return from Subroutine");
    assert_eq!(decode(0x0123), "Unknown Command");
    assert_eq!(decode(0x0000), "Unknown Command");
}

#[test]
fn jumps_and_calls() {
    assert_eq!(decode(0x120A), "Jump to address 0x20A");
    assert_eq!(decode(0x1000), "Jump to address 0x000");
    assert_eq!(decode(0x1FFF), "Jump to address 0xFFF");
    assert_eq!(decode(0x2345), "Execute subroutine at address: 0x345");
    assert_eq!(decode(0xB123), "Jump to address 0x123 PLUS register 0");
    assert_eq!(decode(0xA2F0), "Store memory address 0x2F0 into Register I");
}

#[test]
fn skips() {
    assert_eq!(decode(0x3A05), "Skip next instruction if register A is 0x05");
    assert_eq!(decode(0x41FF), "Skip next instruction if register 1 is not 0xFF");
    assert_eq!(decode(0x5120), "Skip next instruction if register 1 is equal to register 2");
    assert_eq!(decode(0x512F), "Skip next instruction if register 1 is equal to register 2");
    assert_eq!(
        decode(0x9AB0),
        "Skip next instruction if register A is not equal to register B"
    );
    assert_eq!(
        decode(0xE29E),
        "Skip next instruction if key stored in register 2 is pressed."
    );
    assert_eq!(
        decode(0xEFA1),
        "Skip next instruction if key stored in register F is not pressed."
    );
    assert_eq!(decode(0xE200), "Unknown Command");
}

#[test]
fn register_values() {
    assert_eq!(decode(0x6C0A), "Store value 0x0A into register C");
    assert_eq!(decode(0x7301), "Add value 0x01 to register3");
    assert_eq!(decode(0xC70F), "Set register 7 to a random number masked by 0F");
}

#[test]
fn arithmetic() {
    assert_eq!(decode(0x8120), "Store value of register 2 into register1");
    assert_eq!(decode(0x8121), "Set register 1 to register 1 OR register 2");
    assert_eq!(decode(0x8122), "Set register 1 to register 1 AND register 2");
    assert_eq!(decode(0x8123), "Set register 1 to register 1 XOR register 2");
    assert_eq!(decode(0x8124), "Set register 1 to register 1 PLUS register 2");
    assert_eq!(decode(0x8125), "Set register 1 to register 1 MINUS register 2");
    assert_eq!(decode(0x8126), "Set register 1 to register 2 shifted RIGHT one bit");
    assert_eq!(decode(0x8127), "Set register 1 to register 2 MINUS register 1");
    assert_eq!(decode(0x812E), "Set register 1 to register 2 shifted LEFT one bit");
    assert_eq!(decode(0x8128), "Unknown Command");
    assert_eq!(decode(0x812F), "Unknown Command");
}

#[test]
fn drawing() {
    assert_eq!(
        decode(0xD01F),
        "Draw sprite located in memory at register I at X location in register 0 and Y location in register 1 and make it 0xF lines tall"
    );
}

#[test]
fn timers_and_memory() {
    assert_eq!(decode(0xF507), "Store the current value of the delay timer into register 5");
    assert_eq!(decode(0xF50A), "Wait for key press and store it in register 5");
    assert_eq!(decode(0xF515), "Set delay timer to value in register 5");
    assert_eq!(decode(0xF518), "Set sound timer to value in register 5");
    assert_eq!(decode(0xF51E), "Add value in register 5 to Register I");
    assert_eq!(
        decode(0xF529),
        "Set Register I to the memory address of the sprite data corresponding to the hexadecimal digit stored in register 5"
    );
    assert_eq!(
        decode(0xF533),
        "Store the binary coded decimal equivalent of value in register 5 to register I, register I+1, and register I+2"
    );
    assert_eq!(
        decode(0xF555),
        "Store regsiter 0 to register 5 to memory starting at location stored in register I."
    );
    assert_eq!(
        decode(0xF565),
        "Retrieve regsiter 0 to register 5 to memory starting at location stored in register I."
    );
    assert_eq!(decode(0xF566), "Unknown Command");
}

#[test]
fn unknown_exactly_when_undecodable() {
    for ab in 0..=255u8 {
        for cd in 0..=255u8 {
            let text = About::chip_8_decode(ab, cd);
            assert_eq!(decode_instruction(ab, cd).is_none(), text == "Unknown Command");
        }
    }
}

#[test]
fn decoded_operands() {
    assert_eq!(decode_instruction(0x12, 0x34), Some(Instruction::Jump { addr: 0x234 }));
    assert_eq!(
        decode_instruction(0xDA, 0xB5),
        Some(Instruction::Draw { x: 0xA, y: 0xB, height: 5 })
    );
    assert_eq!(decode_instruction(0x3C, 0x7F), Some(Instruction::SkipIfEqual { x: 0xC, value: 0x7F }));
    assert_eq!(decode_instruction(0x80, 0x09), None);
}
