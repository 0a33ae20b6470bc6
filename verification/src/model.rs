//! What Spotify tells about playback.

use crate::error::SpotifyError;
use vstd::prelude::*;

verus! {

#[derive(Debug, Clone)]
pub struct Artist {
    pub id: String,
    pub name: String,
}

#[derive(Debug, Clone)]
pub struct Track {
    pub id: String,
    pub name: String,
    pub uri: String,
    pub duration_ms: u32,
    pub artists: Vec<Artist>,
}

/// What the track being played was chosen from.
#[derive(Debug, Clone)]
pub struct Context {
    pub uri: String,
}

#[derive(Debug, Clone)]
pub struct Device {
    pub id: String,
    pub name: String,
    pub volume_percent: u8,
    pub is_active: bool,
}

#[derive(Debug, Clone)]
pub struct Player {
    pub device: Option<Device>,
    pub progress_ms: u32,
    pub context: Option<Context>,
    pub item: Option<Track>,
    pub is_playing: bool,
    pub repeat_state: String,
    pub shuffle_state: bool,
}

#[derive(Debug, Clone)]
pub struct Queue {
    pub currently_playing: Option<Track>,
    pub queue: Vec<Track>,
}

/// A track with the time at which it was played, as Spotify writes it.
#[derive(Debug, Clone)]
pub struct PlayedTrack {
    pub track: Option<Track>,
    pub played_at: String,
}

#[derive(Debug, Clone)]
pub struct History {
    pub items: Vec<PlayedTrack>,
}

#[derive(Debug, Clone)]
pub struct SpotifyState {
    pub player: Player,
    pub queue: Option<Queue>,
    pub history: Option<History>,
}

/// The duration of the track being played.
pub open spec fn player_duration(player: Player) -> Result<u32, SpotifyError> {
    match player.item {
        Some(track) => Ok(track.duration_ms),
        None => Err(SpotifyError::NoTrack),
    }
}

/// What is left of the track being played: nothing once the progress has
/// reached the duration.
pub open spec fn player_remaining(player: Player) -> Result<u32, SpotifyError> {
    match player_duration(player) {
        Ok(duration) => Ok(
            if duration > player.progress_ms {
                (duration - player.progress_ms) as u32
            } else {
                0
            },
        ),
        Err(error) => Err(error),
    }
}

impl Player {
    /// The duration of the track being played, in milliseconds.
    pub fn get_duration(&self) -> (duration: Result<u32, SpotifyError>)
        ensures
            duration == player_duration(*self),
    {
        match &self.item {
            Some(track) => Ok(track.duration_ms),
            None => Err(SpotifyError::NoTrack),
        }
    }

    /// What is left of the track being played, in milliseconds.
    pub fn get_remaining(&self) -> (remaining: Result<u32, SpotifyError>)
        ensures
            remaining == player_remaining(*self),
    {
        match self.get_duration() {
            Ok(duration_ms) => Ok(duration_ms.saturating_sub(self.progress_ms)),
            Err(error) => Err(error),
        }
    }

    /// The device that the commands go to.
    pub fn device(&self) -> (device: Result<&Device, SpotifyError>)
        ensures
            match self.device {
                Some(known) => device == Ok::<&Device, SpotifyError>(&known),
                None => device == Err::<&Device, SpotifyError>(SpotifyError::NoDevice),
            },
    {
        match &self.device {
            Some(device) => Ok(device),
            None => Err(SpotifyError::NoDevice),
        }
    }
}

impl Default for Player {
    /// Nothing known: no device, no track, nothing playing.
    fn default() -> (player: Player)
        ensures
            player.device is None,
            player.progress_ms == 0,
            player.context is None,
            player.item is None,
            !player.is_playing,
            player.repeat_state@ == Seq::<char>::empty(),
            !player.shuffle_state,
    {
        Player {
            device: None,
            progress_ms: 0,
            context: None,
            item: None,
            is_playing: false,
            repeat_state: String::new(),
            shuffle_state: false,
        }
    }
}

/// The state before Spotify has told anything.
pub open spec fn nothing_known(state: SpotifyState) -> bool {
    &&& state.player.device is None
    &&& state.player.progress_ms == 0
    &&& state.player.context is None
    &&& state.player.item is None
    &&& !state.player.is_playing
    &&& state.player.repeat_state@ == Seq::<char>::empty()
    &&& !state.player.shuffle_state
    &&& state.queue is None
    &&& state.history is None
}

impl Default for SpotifyState {
    fn default() -> (state: SpotifyState)
        ensures
            nothing_known(state),
    {
        SpotifyState { player: Player::default(), queue: None, history: None }
    }
}

/// Progress and remaining time add up to the duration, as long as the track
/// has not been overrun.
pub proof fn remaining_completes_progress(player: Player)
    requires
        player.item is Some,
        player.progress_ms <= player.item->0.duration_ms,
    ensures
        player_remaining(player) is Ok,
        player.progress_ms + player_remaining(player)->Ok_0 == player.item->0.duration_ms,
{
}

/// The duration is that of the track; an overrun track has nothing left; without a
/// track there is neither.
pub proof fn times_of_the_track(player: Player)
    ensures
        player.item matches Some(track) ==> {
            &&& player_duration(player) == Ok::<u32, SpotifyError>(track.duration_ms)
            &&& player_remaining(player) is Ok
            &&& player.progress_ms >= track.duration_ms ==> player_remaining(player)->Ok_0 == 0
            &&& player.progress_ms <= track.duration_ms ==> player_remaining(player)->Ok_0
                + player.progress_ms == track.duration_ms
        },
        player.item is None ==> {
            &&& player_duration(player) == Err::<u32, SpotifyError>(SpotifyError::NoTrack)
            &&& player_remaining(player) == Err::<u32, SpotifyError>(SpotifyError::NoTrack)
        },
{
}

} // verus!
