//! The sounds of the cabinet and the port writes that trigger them.

use vstd::prelude::*;
use crate::cpu::bits::{bit, test_bit};

verus! {

/// A sound of the cabinet.
#[derive(Clone, Copy, Debug, PartialEq, Eq, Structural)]
pub enum Sound {
    /// The saucer crossing the screen; it loops while the saucer is there.
    Ufo,
    /// The player's shot.
    PlayerShoot,
    /// The player's ship being hit.
    PlayerDies,
    /// An invader being hit.
    InvaderDies,
    /// The step of the marching fleet.
    Bomp,
}

/// What the speaker is asked to do with a sound.
#[derive(Clone, Copy, Debug, PartialEq, Eq, Structural)]
pub enum SoundAction {
    /// Start the sound and keep it looping.
    Start(Sound),
    /// Stop the looping sound.
    Stop(Sound),
    /// Play the sound once.
    Play(Sound),
}

impl Sound {
    /// The name of the file that holds the sample.
    pub open spec fn file(self) -> Seq<char> {
        match self {
            Sound::Ufo => "ufo.wav"@,
            Sound::PlayerShoot => "shoot.wav"@,
            Sound::PlayerDies => "player_dies.wav"@,
            Sound::InvaderDies => "invader_dies.wav"@,
            Sound::Bomp => "bomp.wav"@,
        }
    }

    /// The name of the file that holds the sample.
    pub fn file_name(&self) -> (name: &'static str)
        ensures
            name@ == self.file(),
    {
        match self {
            Sound::Ufo => "ufo.wav",
            Sound::PlayerShoot => "shoot.wav",
            Sound::PlayerDies => "player_dies.wav",
            Sound::InvaderDies => "invader_dies.wav",
            Sound::Bomp => "bomp.wav",
        }
    }
}

/// Whether bit `i` is set in `val` and was clear in `prev`.
pub open spec fn rises(prev: u8, val: u8, i: u8) -> bool {
    bit(val, i) && !bit(prev, i)
}

/// Whether bit `i` is clear in `val` and was set in `prev`.
pub open spec fn falls(prev: u8, val: u8, i: u8) -> bool {
    !bit(val, i) && bit(prev, i)
}

/// `action` as a sequence of one element where `wanted` holds, else the
/// empty sequence.
pub open spec fn action_if(wanted: bool, action: SoundAction) -> Seq<SoundAction> {
    if wanted {
        seq![action]
    } else {
        Seq::empty()
    }
}

/// What a write of `val` to port 3 asks of the speaker, where `prev` is the
/// value written before. Sounds follow the edges of the bits, not their
/// levels: a rising bit 0 starts the saucer and a falling one stops it; a
/// rising bit 1, 2 or 3 plays the shot, the player's death or an invader's
/// death, in that order.
pub open spec fn port3_actions(prev: u8, val: u8) -> Seq<SoundAction> {
    action_if(rises(prev, val, 0), SoundAction::Start(Sound::Ufo)) + action_if(
        falls(prev, val, 0),
        SoundAction::Stop(Sound::Ufo),
    ) + action_if(rises(prev, val, 1), SoundAction::Play(Sound::PlayerShoot)) + action_if(
        rises(prev, val, 2),
        SoundAction::Play(Sound::PlayerDies),
    ) + action_if(rises(prev, val, 3), SoundAction::Play(Sound::InvaderDies))
}

/// What a write of `val` to port 5 asks of the speaker, where `prev` is the
/// value written before: a rising bit 0 plays the fleet's step.
pub open spec fn port5_actions(prev: u8, val: u8) -> Seq<SoundAction> {
    action_if(rises(prev, val, 0), SoundAction::Play(Sound::Bomp))
}

/// Whether bit `i` is set in `val` and was clear in `prev`.
pub fn is_rising(prev: u8, val: u8, i: u8) -> (r: bool)
    requires
        i < 8,
    ensures
        r == rises(prev, val, i),
{
    test_bit(val, i) && !test_bit(prev, i)
}

/// Whether bit `i` is clear in `val` and was set in `prev`.
pub fn is_falling(prev: u8, val: u8, i: u8) -> (r: bool)
    requires
        i < 8,
    ensures
        r == falls(prev, val, i),
{
    !test_bit(val, i) && test_bit(prev, i)
}

/// What a write of `val` to port 3 asks of the speaker, where `prev` is the
/// value written before.
pub fn port3_sounds(prev: u8, val: u8) -> (actions: Vec<SoundAction>)
    ensures
        actions@ == port3_actions(prev, val),
{
    let mut actions: Vec<SoundAction> = Vec::new();
    if is_rising(prev, val, 0) {
        actions.push(SoundAction::Start(Sound::Ufo));
    } else if is_falling(prev, val, 0) {
        actions.push(SoundAction::Stop(Sound::Ufo));
    }
    if is_rising(prev, val, 1) {
        actions.push(SoundAction::Play(Sound::PlayerShoot));
    }
    if is_rising(prev, val, 2) {
        actions.push(SoundAction::Play(Sound::PlayerDies));
    }
    if is_rising(prev, val, 3) {
        actions.push(SoundAction::Play(Sound::InvaderDies));
    }
    actions
}

/// What a write of `val` to port 5 asks of the speaker, where `prev` is the
/// value written before.
pub fn port5_sounds(prev: u8, val: u8) -> (actions: Vec<SoundAction>)
    ensures
        actions@ == port5_actions(prev, val),
{
    let mut actions: Vec<SoundAction> = Vec::new();
    if is_rising(prev, val, 0) {
        actions.push(SoundAction::Play(Sound::Bomp));
    }
    actions
}

/// A write that repeats the value written before asks nothing of the
/// speaker.
pub proof fn same_value_is_silent(val: u8)
    ensures
        port3_actions(val, val) == Seq::<SoundAction>::empty(),
        port5_actions(val, val) == Seq::<SoundAction>::empty(),
{
}

} // verus!
