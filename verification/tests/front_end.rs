use chip8eframe::app_state::AppState;
use chip8eframe::config_window::ConfigWindow;
use chip8eframe::display::{frame_cells, Cell};
use chip8eframe::panels::{compute_info, instruction_panel, register_row};

#[test]
fn start_up_state() {
    let s = AppState::new();
    assert_eq!(s.compute_info.name, "Compute Info");
    assert!(s.compute_info.display);
    assert_eq!(s.screen_config.name, "Screen Config");
    assert!(!s.screen_config.display);
    assert_eq!(s.about.name, "About Chip-8");
    assert!(!s.about.display);
    assert_eq!(s.control_flow.name, "Control Flow");
    assert!(s.control_flow.display);
    assert!(s.run);
    assert!(!s.single_step);
    assert_eq!(s.rom_path, "");
}

#[test]
fn screen_config_window() {
    let w = ConfigWindow::new_screen_config();
    assert_eq!(w.name, "Screen Config");
    assert!(!w.display);
}

#[test]
fn running_steps_every_frame() {
    let mut s = AppState::new();
    assert!(s.frame_step());
    assert!(s.frame_step());
    assert_eq!(s.run_toggle_caption(), "Pause");
    assert!(!s.single_step_enabled());
    // The single step button is disabled while running.
    s.request_single_step();
    assert!(!s.single_step);
}

#[test]
fn single_step_runs_once() {
    let mut s = AppState::new();
    s.run = false;
    assert_eq!(s.run_toggle_caption(), "Run");
    assert!(s.single_step_enabled());
    assert!(!s.frame_step());
    s.request_single_step();
    assert!(s.single_step);
    assert!(s.frame_step());
    assert!(!s.single_step);
    assert!(!s.frame_step());
}

#[test]
fn frame_cells_layout() {
    let mut frame = vec![0u8; 16];
    frame[0] = 0b1000_0001;
    frame[9] = 0b0100_0000;
    let cells = frame_cells(&frame);
    assert_eq!(cells.len(), 128);
    assert_eq!(cells[0], Cell { row: 1, col: 0, lit: true });
    assert_eq!(cells[1], Cell { row: 1, col: 1, lit: false });
    assert_eq!(cells[7], Cell { row: 1, col: 7, lit: true });
    assert_eq!(cells[63], Cell { row: 1, col: 63, lit: false });
    assert_eq!(cells[64], Cell { row: 2, col: 0, lit: false });
    assert_eq!(cells[73], Cell { row: 2, col: 9, lit: true });
    assert_eq!(cells.iter().filter(|c| c.lit).count(), 3);
}

#[test]
fn frame_cells_empty() {
    assert!(frame_cells(&[]).is_empty());
}

#[test]
fn compute_info_counters() {
    let info = compute_info(512, 0, 15);
    assert_eq!(info.program_counter, "Program Counter: 512");
    assert_eq!(info.register_i, "Register I: 0");
    assert_eq!(info.stack_pointer, "Stack Pointer: 15");
    let big = compute_info(u64::MAX, 1000, 9);
    assert_eq!(big.program_counter, "Program Counter: 18446744073709551615");
    assert_eq!(big.register_i, "Register I: 1000");
}

#[test]
fn register_rows() {
    let row = register_row(10, 0x5, 0x2A4, true);
    assert_eq!(row.index, "0xA");
    assert_eq!(row.register, "0x05");
    assert_eq!(row.stack, "0x02A4");
    assert_eq!(row.key, "Pressed");
    let row = register_row(0, 0xFF, 0xFFFFF, false);
    assert_eq!(row.index, "0x0");
    assert_eq!(row.register, "0xFF");
    assert_eq!(row.stack, "0xFFFFF");
    assert_eq!(row.key, "");
}

#[test]
fn instruction_read_out() {
    let mut memory = vec![0u8; 4096];
    memory[0x200] = 0x00;
    memory[0x201] = 0xE0;
    memory[0x202] = 0xA2;
    memory[0x203] = 0x2A;
    let panel = instruction_panel(&memory, 0x202);
    assert_eq!(panel.program_counter, "Program Counter: 0x0202");
    assert_eq!(panel.previous, "Previous Instruction: 0x00E0");
    assert_eq!(panel.previous_text, "Clear Screen");
    assert_eq!(panel.next, "Next Instruction: 0xA22A");
    assert_eq!(panel.next_text, "Store memory address 0x22A into Register I");
}

#[test]
fn pending_step_only_while_paused() {
    for run_before in [false, true] {
        for step_before in [false, true] {
            for run_after in [false, true] {
                for pressed in [false, true] {
                    let mut s = AppState::new();
                    s.run = run_before;
                    s.single_step = step_before;
                    s.frame_step();
                    s.run = run_after;
                    if pressed {
                        s.request_single_step();
                    }
                    assert!(!(s.single_step && s.run));
                }
            }
        }
    }
}
