//! What can go wrong before or after a call to Spotify.

use vstd::prelude::*;

verus! {

/// A request that cannot be made, or an answer that holds nothing.
#[derive(Debug, Clone, Copy, PartialEq, Eq, Structural)]
pub enum SpotifyError {
    /// No device to play on is known.
    NoDevice,
    /// No track is being played.
    NoTrack,
    /// The track being played belongs to no playlist, album or artist.
    NoContext,
    /// Spotify answered the question for the player with nothing.
    NothingPlaying,
    /// Spotify answered the question for the queue with nothing.
    QueueEmpty,
    /// Spotify answered the question for the history with nothing.
    NothingPlayed,
}

impl SpotifyError {
    /// The text that the user sees.
    pub open spec fn text(self) -> Seq<char> {
        match self {
            SpotifyError::NoDevice => "No Spotify device found"@,
            SpotifyError::NoTrack => "No track"@,
            SpotifyError::NoContext => "No track context"@,
            SpotifyError::NothingPlaying => "Nothing is currently playing"@,
            SpotifyError::QueueEmpty => "Queue is empty"@,
            SpotifyError::NothingPlayed => "No recently played tracks"@,
        }
    }

    /// The text that the user sees.
    pub fn message(&self) -> (text: String)
        ensures
            text@ == self.text(),
    {
        match self {
            SpotifyError::NoDevice => "No Spotify device found".to_owned(),
            SpotifyError::NoTrack => "No track".to_owned(),
            SpotifyError::NoContext => "No track context".to_owned(),
            SpotifyError::NothingPlaying => "Nothing is currently playing".to_owned(),
            SpotifyError::QueueEmpty => "Queue is empty".to_owned(),
            SpotifyError::NothingPlayed => "No recently played tracks".to_owned(),
        }
    }
}

} // verus!
