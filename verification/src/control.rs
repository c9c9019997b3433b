//! Battery reports and the commands that steer media players and slide shows.

use vstd::prelude::*;
use vstd::string::StringExecFns;
use crate::scalar::Scalar;

verus! {

/// A battery report: charge in percent and whether the battery is charging.
#[derive(Debug, Clone, Copy, PartialEq, Eq, Structural)]
pub struct BatteryStatus {
    /// Charge level in percent.
    pub charge: Scalar,
    /// Whether the battery is charging.
    pub is_charging: bool,
}

/// Commands for a media player.
#[derive(Debug, Clone, Copy, PartialEq, Eq, Structural)]
pub enum MediaControlAction {
    /// Start playback.
    Play,
    /// Pause playback.
    Pause,
    /// Toggle between playing and paused.
    PlayPause,
    /// Next track.
    Next,
    /// Previous track.
    Previous,
    /// Raise the volume.
    VolumeUp,
    /// Lower the volume.
    VolumeDown,
    /// Toggle mute.
    ToggleMute,
}

impl MediaControlAction {
    /// The display name of a media command.
    pub open spec fn name(self) -> Seq<char> {
        match self {
            MediaControlAction::Play => "Play"@,
            MediaControlAction::Pause => "Pause"@,
            MediaControlAction::PlayPause => "Play/Pause"@,
            MediaControlAction::Next => "Next"@,
            MediaControlAction::Previous => "Previous"@,
            MediaControlAction::VolumeUp => "Volume Up"@,
            MediaControlAction::VolumeDown => "Volume Down"@,
            MediaControlAction::ToggleMute => "Toggle Mute"@,
        }
    }

    /// The display name.
    pub fn to_string(&self) -> (text: String)
        ensures
            text@ == self.name(),
    {
        match self {
            MediaControlAction::Play => String::from_str("Play"),
            MediaControlAction::Pause => String::from_str("Pause"),
            MediaControlAction::PlayPause => String::from_str("Play/Pause"),
            MediaControlAction::Next => String::from_str("Next"),
            MediaControlAction::Previous => String::from_str("Previous"),
            MediaControlAction::VolumeUp => String::from_str("Volume Up"),
            MediaControlAction::VolumeDown => String::from_str("Volume Down"),
            MediaControlAction::ToggleMute => String::from_str("Toggle Mute"),
        }
    }
}

/// Commands for a slide show.
#[derive(Debug, Clone, Copy, PartialEq, Eq, Structural)]
pub enum SlideControlAction {
    /// Go to the next slide.
    NextSlide,
    /// Go to the previous slide.
    PreviousSlide,
    /// Start the presentation.
    StartPresentation,
    /// End the presentation.
    EndPresentation,
}

impl SlideControlAction {
    /// The display name of a slide command.
    pub open spec fn name(self) -> Seq<char> {
        match self {
            SlideControlAction::NextSlide => "Next Slide"@,
            SlideControlAction::PreviousSlide => "Previous Slide"@,
            SlideControlAction::StartPresentation => "Start Presentation"@,
            SlideControlAction::EndPresentation => "End Presentation"@,
        }
    }

    /// The display name.
    pub fn to_string(&self) -> (text: String)
        ensures
            text@ == self.name(),
    {
        match self {
            SlideControlAction::NextSlide => String::from_str("Next Slide"),
            SlideControlAction::PreviousSlide => String::from_str("Previous Slide"),
            SlideControlAction::StartPresentation => String::from_str("Start Presentation"),
            SlideControlAction::EndPresentation => String::from_str("End Presentation"),
        }
    }
}

} // verus!
