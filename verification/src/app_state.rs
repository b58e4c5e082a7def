use vstd::prelude::*;

use crate::config_window::{window, ConfigWindow};

verus! {

/// The state of the front end that decides what each frame does: which windows show,
/// whether the emulator runs freely, and whether one single step is pending.
pub struct AppState {
    pub compute_info: ConfigWindow,
    pub screen_config: ConfigWindow,
    pub about: ConfigWindow,
    pub control_flow: ConfigWindow,
    pub run: bool,
    pub single_step: bool,
    pub rom_path: String,
}

/// Whether a frame in state `s` runs the emulator for one instruction.
pub open spec fn runs_frame(s: AppState) -> bool {
    s.run || s.single_step
}

/// The state after a frame: a pending single step has been used up.
pub open spec fn after_frame(s: AppState) -> AppState {
    AppState { single_step: false, ..s }
}

/// The state after the "Single Step" button is pressed. The button is enabled only while
/// the emulator is paused, so a press while it runs changes nothing.
pub open spec fn after_single_step_request(s: AppState) -> AppState {
    if s.run {
        s
    } else {
        AppState { single_step: true, ..s }
    }
}

impl AppState {
    /// The state at start-up: running, the "Compute Info" and "Control Flow" windows shown,
    /// the "Screen Config" and "About Chip-8" windows hidden, no ROM path yet.
    pub fn new() -> (res: Self)
        ensures
            res.compute_info.name@ == "Compute Info"@,
            res.compute_info.display,
            res.screen_config.name@ == "Screen Config"@,
            !res.screen_config.display,
            res.about.name@ == "About Chip-8"@,
            !res.about.display,
            res.control_flow.name@ == "Control Flow"@,
            res.control_flow.display,
            res.run,
            !res.single_step,
            res.rom_path@ == Seq::<char>::empty(),
    {
        AppState {
            compute_info: window("Compute Info", true),
            screen_config: ConfigWindow::new_screen_config(),
            about: window("About Chip-8", false),
            control_flow: window("Control Flow", true),
            run: true,
            single_step: false,
            rom_path: String::new(),
        }
    }

    /// Decides whether this frame runs the emulator, and uses up a pending single step.
    pub fn frame_step(&mut self) -> (runs: bool)
        ensures
            runs == runs_frame(*old(self)),
            *final(self) == after_frame(*old(self)),
    {
        let runs = self.run || self.single_step;
        if runs {
            if self.single_step {
                self.single_step = false;
            }
        }
        runs
    }

    /// Whether the "Single Step" button is enabled: only while paused.
    pub fn single_step_enabled(&self) -> (res: bool)
        ensures
            res == !self.run,
    {
        !self.run
    }

    /// Records a press of the "Single Step" button.
    pub fn request_single_step(&mut self)
        ensures
            *final(self) == after_single_step_request(*old(self)),
    {
        if self.single_step_enabled() {
            self.single_step = true;
        }
    }

    /// The caption of the run toggle: "Pause" while running, "Run" while paused.
    pub fn run_toggle_caption(&self) -> (res: &'static str)
        ensures
            res@ == (if self.run { "Pause"@ } else { "Run"@ }),
    {
        if self.run {
            "Pause"
        } else {
            "Run"
        }
    }
}

/// Pressing "Single Step" while paused runs exactly one instruction: the next frame runs
/// the emulator, and the frame after it does not.
pub proof fn lemma_single_step_runs_once(s: AppState)
    requires
        !s.run,
    ensures
        runs_frame(after_single_step_request(s)),
        !runs_frame(after_frame(after_single_step_request(s))),
        after_frame(after_single_step_request(s)) == after_frame(s),
{
}

/// While the emulator runs, every frame runs it, and frames leave it running.
pub proof fn lemma_running_runs_every_frame(s: AppState)
    requires
        s.run,
    ensures
        runs_frame(s),
        after_frame(s).run,
        runs_frame(after_frame(s)),
{
}

/// While paused with no single step pending, a frame neither runs the emulator nor
/// changes the state.
pub proof fn lemma_paused_stays_paused(s: AppState)
    requires
        !s.run,
        !s.single_step,
    ensures
        !runs_frame(s),
        after_frame(s) == s,
{
}

/// A single step is pending only while the emulator is paused. Each frame first runs
/// (using up any pending step), then the run toggle may set `run` to anything, then the
/// "Single Step" button may be pressed; whatever happens, the frame ends with no single
/// step pending while the emulator runs.
pub proof fn lemma_pending_step_only_while_paused(s: AppState, run: bool, pressed: bool)
    ensures
        ({
            let toggled = AppState { run, ..after_frame(s) };
            let end = if pressed {
                after_single_step_request(toggled)
            } else {
                toggled
            };
            end.single_step ==> !end.run
        }),
{
}

} // verus!
