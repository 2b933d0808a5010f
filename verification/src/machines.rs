//! The devices around the processor, as traits that a host implements, and
//! the machines built on them.

pub mod spaceinvaders;

use vstd::prelude::*;

use crate::cpu::run::RunEnd;

pub use spaceinvaders::{SpaceInvaders, SpaceInvadersIO};

verus! {

/// The port-mapped devices of a machine, as the processor sees them.
///
/// The processor calls `input` for an `In` and `output` for an `Out`. A
/// device that does not serve the port says so, and the instruction is then
/// not executed.
pub trait IO {
    /// Reads the byte at `port`, or `None` where the device has no such
    /// input port.
    fn input(&self, port: u8) -> Option<u8>;

    /// Writes `val` to `port`. Returns whether the device has such an output
    /// port.
    fn output(&mut self, port: u8, val: u8) -> bool;
}

/// The sound hardware of a machine: it plays samples by file name.
pub trait Speaker {
    /// Starts playing a sample in a loop.
    fn start_wav_file(&mut self, file_name: &str);

    /// Stops a looping sample.
    fn stop_wav_file(&mut self, file_name: &str);

    /// Plays a sample once.
    fn play_wav_file(&mut self, file_name: &str);
}

/// The display of a machine.
pub trait Screen {
    /// Blanks the frame that is being drawn.
    fn clear(&mut self);

    /// Lights the pixel at (`x`, `y`) in the colour `color`, given as red,
    /// green and blue.
    fn draw(&mut self, x: i32, y: i32, color: (u8, u8, u8));

    /// Shows the frame that was drawn.
    fn present(&mut self);
}

/// A machine that runs frame by frame.
pub trait Machine {
    /// Whether the machine is in a state from which it can run.
    spec fn wf(&self) -> bool;

    /// Runs the machine for one frame of the display and says how the frame
    /// ended.
    fn run_next_frame(&mut self) -> (end: RunEnd)
        requires
            old(self).wf(),
        ensures
            final(self).wf(),
    ;
}

/// Whether a button is held.
#[derive(Clone, Copy, Debug, PartialEq, Eq, Structural)]
pub enum ButtonState {
    Up,
    Down,
}

/// A button of the cabinet together with its position.
#[derive(Clone, Copy, Debug, PartialEq, Eq, Structural)]
pub enum Button {
    Shoot(ButtonState),
    Left(ButtonState),
    Right(ButtonState),
    Coin(ButtonState),
    OnePlayer(ButtonState),
}

/// The player that a button belongs to.
#[derive(Clone, Copy, Debug, PartialEq, Eq, Structural)]
pub enum Player {
    Player1,
    Player2,
}

/// The controls of a machine.
pub trait Controller {
    /// The button changes since the last call, oldest first.
    fn get_button_states(&mut self) -> Vec<(Player, Button)>;
}

} // verus!
