//! What goes to the player and what comes back from it.

use vstd::prelude::*;
use vstd::string::*;

verus! {

/// An instruction for the player.
#[derive(Debug, PartialEq, Eq)]
pub enum PlayerCommand {
    /// Make the track with this identifier the one to play.
    Load(String),
    Play,
    Pause,
    Stop,
    SetVolume(u16),
}

/// A `PlayerCommand` as a mathematical value.
pub enum Intent {
    Load(Seq<char>),
    Play,
    Pause,
    Stop,
    SetVolume(u16),
}

impl View for PlayerCommand {
    type V = Intent;

    open spec fn view(&self) -> Intent {
        match self {
            PlayerCommand::Load(id) => Intent::Load(id@),
            PlayerCommand::Play => Intent::Play,
            PlayerCommand::Pause => Intent::Pause,
            PlayerCommand::Stop => Intent::Stop,
            PlayerCommand::SetVolume(v) => Intent::SetVolume(*v),
        }
    }
}

impl DeepView for PlayerCommand {
    type V = Intent;

    open spec fn deep_view(&self) -> Intent {
        self@
    }
}

/// A notification from the player about what it is doing now.
#[derive(Clone, Copy, Debug, PartialEq, Eq, Structural)]
pub enum PlayerEvent {
    Playing,
    Paused,
    Stopped,
    /// The track has run to its end. The queue answers this by moving on; it
    /// is never what the queue reports as its status.
    EndOfTrack,
}

impl PlayerEvent {
    /// The word that a status report shows for this event.
    pub open spec fn label(self) -> Seq<char> {
        match self {
            PlayerEvent::Playing => "Playing"@,
            PlayerEvent::Paused => "Paused"@,
            PlayerEvent::Stopped => "Stopped"@,
            PlayerEvent::EndOfTrack => "EndOfTrack"@,
        }
    }

    /// The word that a status report shows for this event.
    pub fn to_string(&self) -> (r: String)
        ensures
            r@ == self.label(),
    {
        match self {
            PlayerEvent::Playing => String::from_str("Playing"),
            PlayerEvent::Paused => String::from_str("Paused"),
            PlayerEvent::Stopped => String::from_str("Stopped"),
            PlayerEvent::EndOfTrack => String::from_str("EndOfTrack"),
        }
    }
}

} // verus!
