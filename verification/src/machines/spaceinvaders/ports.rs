//! The port-mapped hardware of the cabinet: two input ports, the shift
//! register and the sound latches.

use vstd::prelude::*;
use crate::cpu::bits::{high_byte, make_word, split_word, word};
use crate::machines::spaceinvaders::sound::{
    port3_actions, port3_sounds, port5_actions, port5_sounds, SoundAction,
};
use crate::machines::spaceinvaders::controls::{press_all, pressed_all};
use crate::machines::{Button, Player, Speaker, IO};

verus! {

/// The ports of the cabinet together with its speaker.
pub struct SpaceInvadersIO {
    /// Input port 1: coin, start and the first player's controls.
    pub port1: u8,
    /// Input port 2: the second player's controls and the dip switches.
    pub port2: u8,
    shift_register: u16,
    shift_amount: u8,
    prev_port3_val: u8,
    prev_port5_val: u8,
    speaker: Box<dyn Speaker>,
}

/// The mathematical model of the ports: everything but the speaker.
pub struct Ports {
    pub port1: u8,
    pub port2: u8,
    /// The 16-bit shift register.
    pub shift_register: u16,
    /// By how many bits the shifted output is moved up.
    pub shift_amount: u8,
    /// The value last written to port 3.
    pub prev_port3_val: u8,
    /// The value last written to port 5.
    pub prev_port5_val: u8,
}

impl Ports {
    /// The ports of a cabinet that was just switched on: bit 3 of port 1 is
    /// set and everything else is clear.
    pub open spec fn power_on() -> Ports {
        Ports {
            port1: 0b0000_1000,
            port2: 0,
            shift_register: 0,
            shift_amount: 0,
            prev_port3_val: 0,
            prev_port5_val: 0,
        }
    }

    /// The output of the shifter: the eight bits of the shift register that
    /// start `shift_amount` bits below its top.
    pub open spec fn shifted(self) -> u8 {
        ((self.shift_register >> ((8 - self.shift_amount % 8) as u16)) & 0xff) as u8
    }

    /// What a read of `port` gives: ports 1 and 2 are the inputs, port 3 is
    /// the output of the shifter, and there is no other input port.
    pub open spec fn read(self, port: u8) -> Option<u8> {
        if port == 1 {
            Some(self.port1)
        } else if port == 2 {
            Some(self.port2)
        } else if port == 3 {
            Some(self.shifted())
        } else {
            None
        }
    }

    /// Whether `port` is an output port: ports 2 to 6 are.
    pub open spec fn writable(port: u8) -> bool {
        2 <= port <= 6
    }

    /// The ports after `val` was written to `port`. Port 2 sets the shift
    /// amount to the lower three bits of `val`; port 4 moves the upper byte
    /// of the shift register to its lower byte and `val` into its upper
    /// byte; ports 3 and 5 latch `val`; port 6 and every port that is no
    /// output port change nothing.
    pub open spec fn written(self, port: u8, val: u8) -> Ports {
        if port == 2 {
            Ports { shift_amount: val % 8, ..self }
        } else if port == 4 {
            Ports { shift_register: word(val, high_byte(self.shift_register)), ..self }
        } else if port == 3 {
            Ports { prev_port3_val: val, ..self }
        } else if port == 5 {
            Ports { prev_port5_val: val, ..self }
        } else {
            self
        }
    }

    /// What a write of `val` to `port` asks of the speaker.
    pub open spec fn sounds(self, port: u8, val: u8) -> Seq<SoundAction> {
        if port == 3 {
            port3_actions(self.prev_port3_val, val)
        } else if port == 5 {
            port5_actions(self.prev_port5_val, val)
        } else {
            Seq::empty()
        }
    }
}

impl View for SpaceInvadersIO {
    type V = Ports;

    closed spec fn view(&self) -> Ports {
        Ports {
            port1: self.port1,
            port2: self.port2,
            shift_register: self.shift_register,
            shift_amount: self.shift_amount,
            prev_port3_val: self.prev_port3_val,
            prev_port5_val: self.prev_port5_val,
        }
    }
}

/// The eight bits of `register` that start `amount % 8` bits below its top.
fn barrel_shift(register: u16, amount: u8) -> (out: u8)
    ensures
        out == ((register >> ((8 - amount % 8) as u16)) & 0xff) as u8,
{
    let by: u16 = (8 - amount % 8) as u16;
    let window: u16 = (register >> by) & 0xff;
    assert(window <= 0xff) by (bit_vector)
        requires
            window == (register >> by) & 0xff,
    ;
    window as u8
}

impl SpaceInvadersIO {
    /// The ports of a cabinet that was just switched on: bit 3 of port 1 is
    /// set and everything else is clear.
    pub fn new(speaker: Box<dyn Speaker>) -> (io: SpaceInvadersIO)
        ensures
            io@ == Ports::power_on(),
    {
        SpaceInvadersIO {
            shift_register: 0,
            shift_amount: 0,
            port1: 0b0000_1000,
            port2: 0b0000_0000,
            prev_port3_val: 0,
            prev_port5_val: 0,
            speaker,
        }
    }

    /// Hands each action to the speaker, in order. The ports stay as they
    /// are.
    fn perform(&mut self, actions: &Vec<SoundAction>)
        ensures
            final(self)@ == old(self)@,
    {
        let mut i: usize = 0;
        while i < actions.len()
            invariant
                i <= actions.len(),
                self@ == old(self)@,
            decreases actions.len() - i,
        {
            match actions[i] {
                SoundAction::Start(sound) => self.speaker.start_wav_file(sound.file_name()),
                SoundAction::Stop(sound) => self.speaker.stop_wav_file(sound.file_name()),
                SoundAction::Play(sound) => self.speaker.play_wav_file(sound.file_name()),
            }
            i = i + 1;
        }
    }

    /// Applies button events to input port 1, in order.
    pub fn press_buttons(&mut self, events: &Vec<(Player, Button)>)
        ensures
            final(self)@ == (Ports {
                port1: pressed_all(old(self)@.port1, events@),
                ..old(self)@
            }),
    {
        self.port1 = press_all(self.port1, events);
    }
}

impl IO for SpaceInvadersIO {
    /// Reads an input port.
    fn input(&self, port: u8) -> (val: Option<u8>)
        ensures
            val == self@.read(port),
    {
        match port {
            1 => Some(self.port1),
            2 => Some(self.port2),
            3 => Some(barrel_shift(self.shift_register, self.shift_amount)),
            _ => None,
        }
    }

    /// Writes an output port and hands the speaker the sounds that the
    /// write triggers.
    fn output(&mut self, port: u8, val: u8) -> (accepted: bool)
        ensures
            accepted == Ports::writable(port),
            final(self)@ == old(self)@.written(port, val),
    {
        match port {
            2 => {
                self.shift_amount = val % 8;
                true
            },
            4 => {
                let (high, _) = split_word(self.shift_register);
                self.shift_register = make_word(val, high);
                true
            },
            3 => {
                let actions = port3_sounds(self.prev_port3_val, val);
                self.perform(&actions);
                self.prev_port3_val = val;
                true
            },
            5 => {
                let actions = port5_sounds(self.prev_port5_val, val);
                self.perform(&actions);
                self.prev_port5_val = val;
                true
            },
            6 => true,
            _ => false,
        }
    }
}

} // verus!
