//! What the application can be told to do.

use crate::error::SpotifyError;
use crate::model::SpotifyState;
use crate::request::{outcome_view, ApiRequest, RequestView};
use crate::text::concatenated;
use vstd::prelude::*;

verus! {

#[derive(Debug, Clone)]
pub enum Action {
    Quit,
    Close,
    Tick,
    Render,
    Refresh,
    FocusNext,
    FocusPrevious,
    PauseResume,
    Next,
    Previous,
    VolumeUp,
    VolumeDown,
    Mute,
    ToggleShuffle,
    ToggleRepeat,
    QueueMoveNext,
    QueueMovePrevious,
    QueueFirst,
    QueueLast,
    HistoryMoveNext,
    HistoryMovePrevious,
    HistoryFirst,
    HistoryLast,
    PlayQueue,
    PlayHistory,
    QueueHistory,
    SpotifyStateUpdated { state: SpotifyState },
    Error(String),
}

pub enum ActionView {
    Quit,
    Close,
    Tick,
    Render,
    Refresh,
    FocusNext,
    FocusPrevious,
    PauseResume,
    Next,
    Previous,
    VolumeUp,
    VolumeDown,
    Mute,
    ToggleShuffle,
    ToggleRepeat,
    QueueMoveNext,
    QueueMovePrevious,
    QueueFirst,
    QueueLast,
    HistoryMoveNext,
    HistoryMovePrevious,
    HistoryFirst,
    HistoryLast,
    PlayQueue,
    PlayHistory,
    QueueHistory,
    SpotifyStateUpdated { state: SpotifyState },
    Error(Seq<char>),
}

impl View for Action {
    type V = ActionView;

    open spec fn view(&self) -> ActionView {
        match *self {
            Action::Quit => ActionView::Quit,
            Action::Close => ActionView::Close,
            Action::Tick => ActionView::Tick,
            Action::Render => ActionView::Render,
            Action::Refresh => ActionView::Refresh,
            Action::FocusNext => ActionView::FocusNext,
            Action::FocusPrevious => ActionView::FocusPrevious,
            Action::PauseResume => ActionView::PauseResume,
            Action::Next => ActionView::Next,
            Action::Previous => ActionView::Previous,
            Action::VolumeUp => ActionView::VolumeUp,
            Action::VolumeDown => ActionView::VolumeDown,
            Action::Mute => ActionView::Mute,
            Action::ToggleShuffle => ActionView::ToggleShuffle,
            Action::ToggleRepeat => ActionView::ToggleRepeat,
            Action::QueueMoveNext => ActionView::QueueMoveNext,
            Action::QueueMovePrevious => ActionView::QueueMovePrevious,
            Action::QueueFirst => ActionView::QueueFirst,
            Action::QueueLast => ActionView::QueueLast,
            Action::HistoryMoveNext => ActionView::HistoryMoveNext,
            Action::HistoryMovePrevious => ActionView::HistoryMovePrevious,
            Action::HistoryFirst => ActionView::HistoryFirst,
            Action::HistoryLast => ActionView::HistoryLast,
            Action::PlayQueue => ActionView::PlayQueue,
            Action::PlayHistory => ActionView::PlayHistory,
            Action::QueueHistory => ActionView::QueueHistory,
            Action::SpotifyStateUpdated { state } => ActionView::SpotifyStateUpdated { state },
            Action::Error(message) => ActionView::Error(message@),
        }
    }
}

/// What an action leaves to be done outside.
#[derive(Debug)]
pub enum Effect {
    Nothing,
    /// Count the time from now on.
    RestartClock,
    /// Ask Spotify for its state.
    Refresh,
    /// Send a command to Spotify, or report why it cannot be sent.
    Command { outcome: Result<ApiRequest, SpotifyError> },
}

pub enum EffectView {
    Nothing,
    RestartClock,
    Refresh,
    Command { outcome: Result<RequestView, SpotifyError> },
}

impl View for Effect {
    type V = EffectView;

    open spec fn view(&self) -> EffectView {
        match *self {
            Effect::Nothing => EffectView::Nothing,
            Effect::RestartClock => EffectView::RestartClock,
            Effect::Refresh => EffectView::Refresh,
            Effect::Command { outcome } => EffectView::Command { outcome: outcome_view(outcome) },
        }
    }
}

/// What follows a command.
pub open spec fn command_follow_up(result: Result<(), String>) -> ActionView {
    match result {
        Ok(done) => ActionView::Refresh,
        Err(error) => ActionView::Error(error@),
    }
}

/// What follows a refresh.
pub open spec fn refresh_follow_up(result: Result<SpotifyState, String>) -> ActionView {
    match result {
        Ok(state) => ActionView::SpotifyStateUpdated { state },
        Err(error) => ActionView::Error("Refresh failed: "@ + error@),
    }
}

/// The action that follows a command: the state is asked for again, unless the
/// command failed with the given text.
pub fn after_command(result: Result<(), String>) -> (action: Action)
    ensures
        action@ == command_follow_up(result),
        action@ == match result {
            Ok(done) => ActionView::Refresh,
            Err(error) => ActionView::Error(error@),
        },
{
    match result {
        Ok(_) => Action::Refresh,
        Err(error) => Action::Error(error),
    }
}

/// The action that follows a command that could not even be sent.
pub fn after_refusal(error: SpotifyError) -> (action: Action)
    ensures
        action@ == ActionView::Error(error.text()),
{
    after_command(Err(error.message()))
}

/// The action that follows a refresh.
pub fn after_refresh(result: Result<SpotifyState, String>) -> (action: Action)
    ensures
        action@ == refresh_follow_up(result),
        action@ == match result {
            Ok(state) => ActionView::SpotifyStateUpdated { state },
            Err(error) => ActionView::Error("Refresh failed: "@ + error@),
        },
{
    match result {
        Ok(state) => Action::SpotifyStateUpdated { state },
        Err(error) => Action::Error(concatenated("Refresh failed: ", error.as_str())),
    }
}

/// Nothing of an effect is left out of its view.
pub proof fn effects_keep_their_parts(effect: Effect)
    ensures
        effect is Nothing <==> effect@ is Nothing,
        effect is RestartClock <==> effect@ is RestartClock,
        effect is Refresh <==> effect@ is Refresh,
        effect matches Effect::Command { outcome } ==> {
            &&& effect@ is Command
            &&& outcome matches Ok(request) ==> effect@->outcome == Ok::<RequestView, SpotifyError>(
                request@,
            )
            &&& outcome matches Err(error) ==> effect@->outcome == Err::<RequestView, SpotifyError>(
                error,
            )
        },
{
}

/// What came of a command or a refresh is not passed over: a success brings the state
/// up to date, and a failure is reported in its own words, after a word on what failed
/// where that is a refresh.
pub proof fn outcomes_are_followed_up(
    command: Result<(), String>,
    refresh: Result<SpotifyState, String>,
)
    ensures
        command is Ok ==> command_follow_up(command) is Refresh,
        command is Err ==> command_follow_up(command) is Error && command_follow_up(command)->0
            == command->Err_0@,
        refresh is Ok ==> refresh_follow_up(refresh) is SpotifyStateUpdated && refresh_follow_up(
            refresh,
        )->state == refresh->Ok_0,
        refresh is Err ==> {
            let told = refresh_follow_up(refresh);
            let said = "Refresh failed: "@.len() as int;
            &&& told is Error
            &&& told->0.take(said) == "Refresh failed: "@
            &&& told->0.skip(said) == refresh->Err_0@
        },
{
    if let Err(error) = refresh {
        let told = "Refresh failed: "@ + error@;
        assert(told.take("Refresh failed: "@.len() as int) =~= "Refresh failed: "@);
        assert(told.skip("Refresh failed: "@.len() as int) =~= error@);
    }
}

/// Nothing of an action is left out of its view.
pub proof fn actions_keep_their_parts(action: Action)
    ensures
        action is Quit <==> action@ is Quit,
        action is Close <==> action@ is Close,
        action is Tick <==> action@ is Tick,
        action is Render <==> action@ is Render,
        action is Refresh <==> action@ is Refresh,
        action is FocusNext <==> action@ is FocusNext,
        action is FocusPrevious <==> action@ is FocusPrevious,
        action is PauseResume <==> action@ is PauseResume,
        action is Next <==> action@ is Next,
        action is Previous <==> action@ is Previous,
        action is VolumeUp <==> action@ is VolumeUp,
        action is VolumeDown <==> action@ is VolumeDown,
        action is Mute <==> action@ is Mute,
        action is ToggleShuffle <==> action@ is ToggleShuffle,
        action is ToggleRepeat <==> action@ is ToggleRepeat,
        action is QueueMoveNext <==> action@ is QueueMoveNext,
        action is QueueMovePrevious <==> action@ is QueueMovePrevious,
        action is QueueFirst <==> action@ is QueueFirst,
        action is QueueLast <==> action@ is QueueLast,
        action is HistoryMoveNext <==> action@ is HistoryMoveNext,
        action is HistoryMovePrevious <==> action@ is HistoryMovePrevious,
        action is HistoryFirst <==> action@ is HistoryFirst,
        action is HistoryLast <==> action@ is HistoryLast,
        action is PlayQueue <==> action@ is PlayQueue,
        action is PlayHistory <==> action@ is PlayHistory,
        action is QueueHistory <==> action@ is QueueHistory,
        action is SpotifyStateUpdated <==> action@ is SpotifyStateUpdated,
        action is Error <==> action@ is Error,
        action matches Action::SpotifyStateUpdated { state } ==> action@->state == state,
        action matches Action::Error(message) ==> action@ == ActionView::Error(message@),
{
}

} // verus!
