//! The controls of the cabinet: from keys to buttons and from buttons to
//! the bits of input port 1.

use vstd::prelude::*;
use vstd::string::*;
use crate::cpu::bits::{assign_bit, bit, with_bit};
use crate::machines::{Button, ButtonState, Player};

verus! {

/// A key of the host's keyboard, as far as the cabinet cares.
#[derive(Clone, Copy, Debug, PartialEq, Eq, Structural)]
pub enum Key {
    /// The letter C: the coin slot.
    C,
    /// The digit 1: the one-player start button.
    Num1,
    /// The left arrow.
    Left,
    /// The right arrow.
    Right,
    /// The space bar: the fire button.
    Space,
    /// The escape key.
    Escape,
    /// Any other key.
    Other,
}

/// An event of the host's window, as far as the cabinet cares.
#[derive(Clone, Copy, Debug, PartialEq, Eq, Structural)]
pub enum KeyEvent {
    /// The window was asked to close.
    Quit,
    /// A key went down.
    Down(Key),
    /// A key came up.
    Up(Key),
    /// Anything else.
    Other,
}

/// What an event of the host's window means to the cabinet.
#[derive(Clone, Copy, Debug, PartialEq, Eq, Structural)]
pub enum Control {
    /// The host should stop the machine.
    Quit,
    /// A button of a player changed.
    Press(Player, Button),
    /// The event means nothing to the cabinet.
    Ignored,
}

impl Button {
    /// The bit of input port 1 that the button drives.
    pub open spec fn port_bit(self) -> u8 {
        match self {
            Button::Coin(_) => 0,
            Button::OnePlayer(_) => 2,
            Button::Shoot(_) => 4,
            Button::Left(_) => 5,
            Button::Right(_) => 6,
        }
    }

    /// Whether the button is held.
    pub open spec fn is_down(self) -> bool {
        match self {
            Button::Coin(state)
            | Button::OnePlayer(state)
            | Button::Shoot(state)
            | Button::Left(state)
            | Button::Right(state) => state is Down,
        }
    }

    /// The bit of input port 1 that the button drives.
    pub fn bit_index(&self) -> (i: u8)
        ensures
            i == self.port_bit(),
            i < 8,
    {
        match self {
            Button::Coin(_) => 0,
            Button::OnePlayer(_) => 2,
            Button::Shoot(_) => 4,
            Button::Left(_) => 5,
            Button::Right(_) => 6,
        }
    }

    /// Whether the button is held.
    pub fn held(&self) -> (down: bool)
        ensures
            down == self.is_down(),
    {
        match self {
            Button::Coin(state)
            | Button::OnePlayer(state)
            | Button::Shoot(state)
            | Button::Left(state)
            | Button::Right(state) => match state {
                ButtonState::Down => true,
                ButtonState::Up => false,
            },
        }
    }
}

/// The button that a key drives, in the position `state`; `None` for a key
/// that drives none.
pub open spec fn key_button(key: Key, state: ButtonState) -> Option<Button> {
    match key {
        Key::C => Some(Button::Coin(state)),
        Key::Num1 => Some(Button::OnePlayer(state)),
        Key::Left => Some(Button::Left(state)),
        Key::Right => Some(Button::Right(state)),
        Key::Space => Some(Button::Shoot(state)),
        _ => None,
    }
}

/// What an event means to the cabinet: a close request stops the machine, a
/// key that drives a button presses or releases that button of the first
/// player, and everything else is ignored.
pub open spec fn control_for(event: KeyEvent) -> Control {
    match event {
        KeyEvent::Quit => Control::Quit,
        KeyEvent::Down(key) => match key_button(key, ButtonState::Down) {
            Some(button) => Control::Press(Player::Player1, button),
            None => Control::Ignored,
        },
        KeyEvent::Up(key) => match key_button(key, ButtonState::Up) {
            Some(button) => Control::Press(Player::Player1, button),
            None => Control::Ignored,
        },
        KeyEvent::Other => Control::Ignored,
    }
}

/// The key that a key code of the browser names.
pub open spec fn code_key(code: Seq<char>) -> Key {
    if code == "KeyC"@ {
        Key::C
    } else if code == "Digit1"@ {
        Key::Num1
    } else if code == "ArrowLeft"@ {
        Key::Left
    } else if code == "ArrowRight"@ {
        Key::Right
    } else if code == "Space"@ {
        Key::Space
    } else {
        Key::Other
    }
}

/// Input port 1 after a button event: a button of the first player sets its
/// bit when it goes down and clears it when it comes up; the second player
/// has no bits in this port.
pub open spec fn pressed(port1: u8, player: Player, button: Button) -> u8 {
    match player {
        Player::Player1 => with_bit(port1, button.port_bit(), button.is_down()),
        Player::Player2 => port1,
    }
}

/// Input port 1 after a sequence of button events, applied in order.
pub open spec fn pressed_all(port1: u8, events: Seq<(Player, Button)>) -> u8
    decreases events.len(),
{
    if events.len() == 0 {
        port1
    } else {
        pressed(pressed_all(port1, events.drop_last()), events.last().0, events.last().1)
    }
}

/// The button that a key drives, in the position `state`.
pub fn button_for_key(key: Key, state: ButtonState) -> (button: Option<Button>)
    ensures
        button == key_button(key, state),
{
    match key {
        Key::C => Some(Button::Coin(state)),
        Key::Num1 => Some(Button::OnePlayer(state)),
        Key::Left => Some(Button::Left(state)),
        Key::Right => Some(Button::Right(state)),
        Key::Space => Some(Button::Shoot(state)),
        _ => None,
    }
}

/// What an event of the host's window means to the cabinet.
pub fn control_for_event(event: KeyEvent) -> (control: Control)
    ensures
        control == control_for(event),
{
    let pressed = match event {
        KeyEvent::Quit => {
            return Control::Quit;
        },
        KeyEvent::Down(key) => button_for_key(key, ButtonState::Down),
        KeyEvent::Up(key) => button_for_key(key, ButtonState::Up),
        KeyEvent::Other => None,
    };
    match pressed {
        Some(button) => Control::Press(Player::Player1, button),
        None => Control::Ignored,
    }
}

/// Whether two strings hold the same text.
fn same_text(code: &str, name: &str) -> (same: bool)
    ensures
        same == (code@ == name@),
{
    String::from_str(code) == String::from_str(name)
}

/// The key that a key code of the browser names.
pub fn key_for_code(code: &str) -> (key: Key)
    ensures
        key == code_key(code@),
{
    if same_text(code, "KeyC") {
        Key::C
    } else if same_text(code, "Digit1") {
        Key::Num1
    } else if same_text(code, "ArrowLeft") {
        Key::Left
    } else if same_text(code, "ArrowRight") {
        Key::Right
    } else if same_text(code, "Space") {
        Key::Space
    } else {
        Key::Other
    }
}

/// Input port 1 after a button event.
pub fn press(port1: u8, player: Player, button: Button) -> (port: u8)
    ensures
        port == pressed(port1, player, button),
        player is Player1 ==> bit(port, button.port_bit()) == button.is_down(),
        forall|j: u8|
            j < 8 && (player is Player2 || j != button.port_bit()) ==> bit(port, j) == bit(
                port1,
                j,
            ),
{
    match player {
        Player::Player1 => assign_bit(port1, button.bit_index(), button.held()),
        Player::Player2 => port1,
    }
}

/// Input port 1 after a sequence of button events, applied in order.
pub fn press_all(port1: u8, events: &Vec<(Player, Button)>) -> (port: u8)
    ensures
        port == pressed_all(port1, events@),
{
    let mut port: u8 = port1;
    let mut i: usize = 0;
    while i < events.len()
        invariant
            i <= events.len(),
            port == pressed_all(port1, events@.take(i as int)),
        decreases events.len() - i,
    {
        let (player, button) = events[i];
        proof {
            let longer = events@.take(i + 1);
            assert(longer.drop_last() == events@.take(i as int));
            assert(longer.last() == events@[i as int]);
        }
        port = press(port, player, button);
        i = i + 1;
    }
    proof {
        assert(events@.take(events.len() as int) == events@);
    }
    port
}

} // verus!
