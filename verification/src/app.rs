//! The application: what it knows, and how an action changes it.

use crate::action::{
    command_follow_up, refresh_follow_up, Action, ActionView, Effect, EffectView,
};
use crate::error::SpotifyError;
use crate::focus::{focus_after, focus_before, Focus};
use crate::history::{nth_played, played, played_count};
use crate::model::{
    nothing_known, player_duration, History, Player, Queue, SpotifyState, Track,
};
use crate::request::{
    following_repeat_state, BodyView, Method, RequestView,
};
use crate::request::{
    next_request, pause_request, play_request, previous_request, queue_request, repeat_request,
    resume_request, shuffle_request, volume_request,
};
use crate::selection::{
    clamp, clamped, row_above, row_below, select_first, select_last, select_next, select_previous,
    selecting, Selection,
};
use crate::text::{number_of, numerals_can_be_read_back};
use std::collections::VecDeque;
use vstd::prelude::*;

verus! {

/// The screen is due this often, in milliseconds.
pub const RENDER_PERIOD_MILLIS: u64 = 33;

/// The state is due to be asked for this often, in milliseconds.
pub const REFRESH_PERIOD_MILLIS: u64 = 10_000;

/// Everything that is shown and acted upon.
#[derive(Debug)]
pub struct App {
    pub state: SpotifyState,
    /// The panel that the keys go to; missing once it can no longer be read.
    pub focus: Option<Focus>,
    pub queue_state: Selection,
    pub history_state: Selection,
    /// Errors that have not been closed yet, the oldest first.
    pub error_list: VecDeque<String>,
    pub exit: bool,
}

#[verifier::ext_equal]
pub struct AppView {
    pub state: SpotifyState,
    pub focus: Option<Focus>,
    pub queue_state: Selection,
    pub history_state: Selection,
    pub errors: Seq<Seq<char>>,
    pub exit: bool,
}

impl View for App {
    type V = AppView;

    open spec fn view(&self) -> AppView {
        AppView {
            state: self.state,
            focus: self.focus,
            queue_state: self.queue_state,
            history_state: self.history_state,
            errors: self.error_list@.map_values(|error: String| error@),
            exit: self.exit,
        }
    }
}

/// The volume of the device that plays.
pub open spec fn device_volume(player: Player) -> Result<u8, SpotifyError> {
    match player.device {
        Some(device) => Ok(device.volume_percent),
        None => Err(SpotifyError::NoDevice),
    }
}

/// The volume to count from: that of the device, zero without one.
pub open spec fn base_volume(player: Player) -> u8 {
    match device_volume(player) {
        Ok(volume) => volume,
        Err(error) => 0,
    }
}

/// Ten percent more, at most a hundred.
pub open spec fn louder(volume: u8) -> u8 {
    if volume + 10 <= 100 {
        (volume + 10) as u8
    } else {
        100
    }
}

/// Ten percent less, at least nothing.
pub open spec fn softer(volume: u8) -> u8 {
    if volume >= 10 {
        (volume - 10) as u8
    } else {
        0
    }
}

/// The context of the track being played, empty if there is none.
pub open spec fn context_uri(player: Player) -> Seq<char> {
    match player.context {
        Some(context) => context.uri@,
        None => Seq::empty(),
    }
}

/// The track in the selected row of the queue.
pub open spec fn selected_in_queue(app: AppView) -> Option<Track> {
    match (app.queue_state.selected, app.state.queue) {
        (Some(row), Some(queue)) if row < queue.queue@.len() => Some(queue.queue@[row as int]),
        _ => None,
    }
}

/// The track in the selected row of the history.
pub open spec fn selected_in_history(app: AppView) -> Option<Track> {
    match (app.history_state.selected, app.state.history) {
        (Some(row), Some(history)) if row < played(history.items@).len() => played(
            history.items@,
        )[row as int].track,
        _ => None,
    }
}

/// The selections brought back into the lists that are known.
pub open spec fn with_clamped_selection(app: AppView) -> AppView {
    AppView {
        queue_state: match app.state.queue {
            Some(queue) => clamped(app.queue_state, queue.queue@.len()),
            None => app.queue_state,
        },
        history_state: match app.state.history {
            Some(history) => clamped(app.history_state, played(history.items@).len()),
            None => app.history_state,
        },
        ..app
    }
}

/// The application after an action.
pub open spec fn app_step(app: AppView, action: ActionView) -> AppView {
    match action {
        ActionView::Quit => AppView { exit: true, ..app },
        ActionView::Close => AppView {
            errors: if app.errors.len() > 0 {
                app.errors.drop_first()
            } else {
                app.errors
            },
            ..app
        },
        ActionView::FocusNext => AppView {
            focus: match app.focus {
                Some(focus) => Some(focus_after(focus)),
                None => None,
            },
            ..app
        },
        ActionView::FocusPrevious => AppView {
            focus: match app.focus {
                Some(focus) => Some(focus_before(focus)),
                None => None,
            },
            ..app
        },
        ActionView::QueueMoveNext => AppView {
            queue_state: selecting(app.queue_state, Some(row_below(app.queue_state))),
            ..app
        },
        ActionView::QueueMovePrevious => AppView {
            queue_state: selecting(app.queue_state, Some(row_above(app.queue_state))),
            ..app
        },
        ActionView::QueueFirst => AppView {
            queue_state: selecting(app.queue_state, Some(0)),
            ..app
        },
        ActionView::QueueLast => AppView {
            queue_state: selecting(app.queue_state, Some(usize::MAX)),
            ..app
        },
        ActionView::HistoryMoveNext => AppView {
            history_state: selecting(app.history_state, Some(row_below(app.history_state))),
            ..app
        },
        ActionView::HistoryMovePrevious => AppView {
            history_state: selecting(app.history_state, Some(row_above(app.history_state))),
            ..app
        },
        ActionView::HistoryFirst => AppView {
            history_state: selecting(app.history_state, Some(0)),
            ..app
        },
        ActionView::HistoryLast => AppView {
            history_state: selecting(app.history_state, Some(usize::MAX)),
            ..app
        },
        ActionView::SpotifyStateUpdated { state } => with_clamped_selection(
            AppView { state, ..app },
        ),
        ActionView::Error(message) => AppView { errors: app.errors.push(message), ..app },
        _ => app,
    }
}

/// What an action leaves to be done outside.
pub open spec fn app_effect(app: AppView, action: ActionView) -> EffectView {
    let player = app.state.player;
    match action {
        ActionView::Refresh => EffectView::Refresh,
        ActionView::PauseResume => EffectView::Command {
            outcome: if player.is_playing {
                pause_request(player)
            } else {
                resume_request(player)
            },
        },
        ActionView::Next => EffectView::Command { outcome: next_request(player) },
        ActionView::Previous => EffectView::Command { outcome: previous_request(player) },
        ActionView::VolumeUp => EffectView::Command {
            outcome: volume_request(player, louder(base_volume(player))),
        },
        ActionView::VolumeDown => EffectView::Command {
            outcome: volume_request(player, softer(base_volume(player))),
        },
        ActionView::Mute => EffectView::Command { outcome: volume_request(player, 0) },
        ActionView::ToggleShuffle => EffectView::Command { outcome: shuffle_request(player) },
        ActionView::ToggleRepeat => EffectView::Command { outcome: repeat_request(player) },
        ActionView::PlayQueue => match selected_in_queue(app) {
            Some(track) => EffectView::Command {
                outcome: play_request(player, track.uri@, context_uri(player)),
            },
            None => EffectView::Nothing,
        },
        ActionView::PlayHistory => match selected_in_history(app) {
            Some(track) => EffectView::Command {
                outcome: play_request(player, track.uri@, context_uri(player)),
            },
            None => EffectView::Nothing,
        },
        ActionView::QueueHistory => match selected_in_history(app) {
            Some(track) => EffectView::Command { outcome: queue_request(player, track.uri@) },
            None => EffectView::Nothing,
        },
        ActionView::SpotifyStateUpdated { state } => EffectView::RestartClock,
        _ => EffectView::Nothing,
    }
}

/// What the application waits for.
#[derive(Debug)]
pub enum Wake {
    Action(Action),
    /// The screen is due, `elapsed_millis` after the clock was last started.
    RenderTick { elapsed_millis: u128 },
    /// The state is due to be asked for.
    RefreshTick,
}

pub enum WakeView {
    Action(ActionView),
    RenderTick { elapsed_millis: u128 },
    RefreshTick,
}

impl View for Wake {
    type V = WakeView;

    open spec fn view(&self) -> WakeView {
        match *self {
            Wake::Action(action) => WakeView::Action(action@),
            Wake::RenderTick { elapsed_millis } => WakeView::RenderTick { elapsed_millis },
            Wake::RefreshTick => WakeView::RefreshTick,
        }
    }
}

/// The progress after `elapsed_millis` more of playing. The time is taken as
/// far as 32 bits hold it, the sum as far as it fits, and the track is not
/// overrun.
pub open spec fn advanced_progress(player: Player, elapsed_millis: u128) -> u32 {
    let sum = player.progress_ms + elapsed_millis as int % 0x1_0000_0000;
    let held = if sum <= u32::MAX {
        sum as u32
    } else {
        u32::MAX
    };
    match player_duration(player) {
        Ok(duration) if duration < held => duration,
        _ => held,
    }
}

/// The player after `elapsed_millis` more of playing.
pub open spec fn advanced(player: Player, elapsed_millis: u128) -> Player {
    if player.is_playing {
        Player { progress_ms: advanced_progress(player, elapsed_millis), ..player }
    } else {
        player
    }
}

/// The application after `elapsed_millis` more of playing.
pub open spec fn progressed(app: AppView, elapsed_millis: u128) -> AppView {
    AppView {
        state: SpotifyState {
            player: advanced(app.state.player, elapsed_millis),
            ..app.state
        },
        ..app
    }
}

/// The application after it was woken.
pub open spec fn wake_step(app: AppView, wake: WakeView) -> AppView {
    match wake {
        WakeView::Action(action) => app_step(app, action),
        WakeView::RenderTick { elapsed_millis } => progressed(app, elapsed_millis),
        WakeView::RefreshTick => app,
    }
}

/// What is left to be done outside after the application was woken.
pub open spec fn wake_effect(app: AppView, wake: WakeView) -> EffectView {
    match wake {
        WakeView::Action(action) => app_effect(app, action),
        WakeView::RenderTick { elapsed_millis } => if app.state.player.is_playing {
            EffectView::RestartClock
        } else {
            EffectView::Nothing
        },
        WakeView::RefreshTick => EffectView::Refresh,
    }
}

/// The screen is drawn after everything but a refresh tick.
pub open spec fn wake_redraws(wake: WakeView) -> bool {
    !(wake is RefreshTick)
}

/// What follows a wake: first the effect, and then, if so, a new screen.
#[derive(Debug)]
pub struct Turn {
    pub effect: Effect,
    pub redraw: bool,
}

impl App {
    /// The application as it starts.
    pub fn new() -> (app: App)
        ensures
            nothing_known(app.state),
            app.focus == Some(Focus::Player),
            app.queue_state == (Selection { selected: None, offset: 0 }),
            app.history_state == (Selection { selected: None, offset: 0 }),
            app@.errors == Seq::<Seq<char>>::empty(),
            !app.exit,
    {
        let app = App {
            state: SpotifyState::default(),
            focus: Some(Focus::Player),
            queue_state: Selection { selected: None, offset: 0 },
            history_state: Selection { selected: None, offset: 0 },
            error_list: VecDeque::new(),
            exit: false,
        };
        assert(app@.errors =~= Seq::<Seq<char>>::empty());
        app
    }

    /// Changes the application as the action says, and tells what is left to be
    /// done outside.
    pub fn update(&mut self, action: Action) -> (effect: Effect)
        ensures
            final(self)@ == app_step(old(self)@, action@),
            effect@ == app_effect(old(self)@, action@),
    {
        match action {
            Action::Quit => {
                self.exit = true;
                Effect::Nothing
            },
            Action::Tick => Effect::Nothing,
            Action::Render => Effect::Nothing,
            Action::FocusNext => {
                if let Some(focus) = self.focus {
                    self.focus = Some(focus.next());
                }
                Effect::Nothing
            },
            Action::FocusPrevious => {
                if let Some(focus) = self.focus {
                    self.focus = Some(focus.prev());
                }
                Effect::Nothing
            },
            Action::Close => {
                let _ = self.error_list.pop_front();
                assert(self@.errors =~= app_step(old(self)@, action@).errors);
                Effect::Nothing
            },
            Action::Refresh => Effect::Refresh,
            Action::PauseResume => {
                if self.state.player.is_playing {
                    Effect::Command { outcome: self.state.player.pause() }
                } else {
                    Effect::Command { outcome: self.state.player.resume() }
                }
            },
            Action::Next => Effect::Command { outcome: self.state.player.next() },
            Action::Previous => Effect::Command { outcome: self.state.player.prev() },
            Action::VolumeUp => self.volume_up(),
            Action::VolumeDown => self.volume_down(),
            Action::Mute => self.mute(),
            Action::ToggleShuffle => Effect::Command {
                outcome: self.state.player.toggle_shuffle(),
            },
            Action::ToggleRepeat => Effect::Command { outcome: self.state.player.toggle_repeat() },
            Action::QueueMoveNext => {
                self.queue_state = select_next(self.queue_state);
                Effect::Nothing
            },
            Action::QueueMovePrevious => {
                self.queue_state = select_previous(self.queue_state);
                Effect::Nothing
            },
            Action::QueueFirst => {
                self.queue_state = select_first(self.queue_state);
                Effect::Nothing
            },
            Action::QueueLast => {
                self.queue_state = select_last(self.queue_state);
                Effect::Nothing
            },
            Action::HistoryMoveNext => {
                self.history_state = select_next(self.history_state);
                Effect::Nothing
            },
            Action::HistoryMovePrevious => {
                self.history_state = select_previous(self.history_state);
                Effect::Nothing
            },
            Action::HistoryFirst => {
                self.history_state = select_first(self.history_state);
                Effect::Nothing
            },
            Action::HistoryLast => {
                self.history_state = select_last(self.history_state);
                Effect::Nothing
            },
            Action::PlayQueue => self.play_queue(),
            Action::PlayHistory => self.play_history(),
            Action::QueueHistory => self.queue_history(),
            Action::SpotifyStateUpdated { state } => {
                self.state = state;
                self.clamp_selection();
                Effect::RestartClock
            },
            Action::Error(error) => {
                self.error_list.push_back(error);
                assert(self@.errors =~= old(self)@.errors.push(error@));
                Effect::Nothing
            },
        }
    }

    /// Moves the progress of the track being played forward without asking
    /// Spotify, `elapsed_millis` having passed since the last time. Tells
    /// whether the time is to be counted from now on.
    pub fn update_progress(&mut self, elapsed_millis: u128) -> (restart_clock: bool)
        ensures
            final(self)@ == progressed(old(self)@, elapsed_millis),
            restart_clock == old(self).state.player.is_playing,
    {
        if !self.state.player.is_playing {
            return false;
        }
        let elapsed: u32 = (elapsed_millis % 0x1_0000_0000) as u32;
        let mut progress: u32 = self.state.player.progress_ms.saturating_add(elapsed);
        if let Ok(duration) = self.state.player.get_duration() {
            if duration < progress {
                progress = duration;
            }
        }
        self.state.player.progress_ms = progress;
        true
    }

    /// What the application does first: it asks for the state.
    pub fn first_action() -> (action: Action)
        ensures
            action@ == ActionView::Refresh,
    {
        Action::Refresh
    }

    /// Whether there is anything left to wait for.
    pub fn is_running(&self) -> (running: bool)
        ensures
            running == !self@.exit,
    {
        !self.exit
    }

    /// One turn of the application: what it does when it is woken.
    pub fn wake(&mut self, wake: Wake) -> (turn: Turn)
        ensures
            final(self)@ == wake_step(old(self)@, wake@),
            turn.effect@ == wake_effect(old(self)@, wake@),
            turn.redraw == wake_redraws(wake@),
    {
        match wake {
            Wake::Action(action) => Turn { effect: self.update(action), redraw: true },
            Wake::RenderTick { elapsed_millis } => {
                let effect = if self.update_progress(elapsed_millis) {
                    Effect::RestartClock
                } else {
                    Effect::Nothing
                };
                Turn { effect, redraw: true }
            },
            Wake::RefreshTick => Turn { effect: Effect::Refresh, redraw: false },
        }
    }

    /// Ten percent louder.
    pub fn volume_up(&self) -> (effect: Effect)
        ensures
            effect@ == app_effect(self@, ActionView::VolumeUp),
    {
        let volume: u8 = match self.get_volume_percent() {
            Ok(volume) => volume,
            Err(_) => 0,
        };
        let louder: u8 = volume.saturating_add(10);
        Effect::Command {
            outcome: self.state.player.volume(
                if louder < 100 {
                    louder
                } else {
                    100
                },
            ),
        }
    }

    /// Ten percent softer.
    pub fn volume_down(&self) -> (effect: Effect)
        ensures
            effect@ == app_effect(self@, ActionView::VolumeDown),
    {
        let volume: u8 = match self.get_volume_percent() {
            Ok(volume) => volume,
            Err(_) => 0,
        };
        Effect::Command { outcome: self.state.player.volume(volume.saturating_sub(10)) }
    }

    /// No sound.
    pub fn mute(&self) -> (effect: Effect)
        ensures
            effect@ == app_effect(self@, ActionView::Mute),
    {
        Effect::Command { outcome: self.state.player.volume(0) }
    }

    /// Plays the track in the selected row of the queue.
    pub fn play_queue(&self) -> (effect: Effect)
        ensures
            effect@ == app_effect(self@, ActionView::PlayQueue),
    {
        let index: usize = match self.queue_state.selected {
            Some(index) => index,
            None => {
                return Effect::Nothing;
            },
        };
        if let Some(queue) = &self.state.queue {
            if index < queue.queue.len() {
                let context_uri = self.context_uri_or_empty();
                return Effect::Command {
                    outcome: self.state.player.play(
                        queue.queue[index].uri.as_str(),
                        context_uri.as_str(),
                    ),
                };
            }
        }
        Effect::Nothing
    }

    /// Plays the track in the selected row of the history.
    pub fn play_history(&self) -> (effect: Effect)
        ensures
            effect@ == app_effect(self@, ActionView::PlayHistory),
    {
        match self.selected_history_track() {
            Some(track) => {
                let context_uri = self.context_uri_or_empty();
                Effect::Command {
                    outcome: self.state.player.play(track.uri.as_str(), context_uri.as_str()),
                }
            },
            None => Effect::Nothing,
        }
    }

    /// Puts the track in the selected row of the history into the queue.
    pub fn queue_history(&self) -> (effect: Effect)
        ensures
            effect@ == app_effect(self@, ActionView::QueueHistory),
    {
        match self.selected_history_track() {
            Some(track) => Effect::Command {
                outcome: self.state.player.queue(track.uri.as_str()),
            },
            None => Effect::Nothing,
        }
    }

    /// The track in the selected row of the history.
    pub fn selected_history_track(&self) -> (track: Option<&Track>)
        ensures
            match track {
                Some(track) => selected_in_history(self@) == Some(*track),
                None => selected_in_history(self@) is None,
            },
    {
        let index: usize = match self.history_state.selected {
            Some(index) => index,
            None => {
                return None;
            },
        };
        match &self.state.history {
            Some(history) => {
                proof {
                    if index < played(history.items@).len() {
                        crate::history::played_have_tracks(history.items@, index as int);
                    }
                }
                nth_played(&history.items, index)
            },
            None => None,
        }
    }

    /// The volume of the device that plays.
    pub fn get_volume_percent(&self) -> (volume: Result<u8, SpotifyError>)
        ensures
            volume == device_volume(self.state.player),
    {
        match &self.state.player.device {
            Some(device) => Ok(device.volume_percent),
            None => Err(SpotifyError::NoDevice),
        }
    }

    /// The context of the track being played.
    pub fn get_context_uri(&self) -> (uri: Result<String, SpotifyError>)
        ensures
            match self.state.player.context {
                Some(context) => uri matches Ok(uri) && uri@ == context.uri@,
                None => uri == Err::<String, SpotifyError>(SpotifyError::NoContext),
            },
    {
        match &self.state.player.context {
            Some(context) => Ok(context.uri.clone()),
            None => Err(SpotifyError::NoContext),
        }
    }

    fn context_uri_or_empty(&self) -> (uri: String)
        ensures
            uri@ == context_uri(self.state.player),
    {
        match self.get_context_uri() {
            Ok(uri) => uri,
            Err(_) => String::new(),
        }
    }

    /// Brings the selections back into the lists that are known.
    pub fn clamp_selection(&mut self)
        ensures
            final(self)@ == with_clamped_selection(old(self)@),
    {
        if let Some(queue) = &self.state.queue {
            self.queue_state = clamp(self.queue_state, queue.queue.len());
        }
        if let Some(history) = &self.state.history {
            self.history_state = clamp(self.history_state, played_count(&history.items));
        }
    }
}

/// Nothing but the wish to quit ends the application, and nothing revives it.
pub proof fn only_quitting_ends(app: AppView, wake: WakeView)
    ensures
        wake_step(app, wake).exit <==> app.exit || wake == WakeView::Action(ActionView::Quit),
{
}

/// The application after it was woken time and again.
pub open spec fn after_wakes(app: AppView, wakes: Seq<WakeView>) -> AppView
    decreases wakes.len(),
{
    if wakes.len() == 0 {
        app
    } else {
        wake_step(after_wakes(app, wakes.drop_last()), wakes.last())
    }
}

/// Every refresh tick asks for the state, just as the user can; it changes
/// nothing itself.
pub proof fn a_refresh_tick_refreshes(app: AppView)
    ensures
        wake_effect(app, WakeView::RefreshTick) == EffectView::Refresh,
        wake_effect(app, WakeView::RefreshTick) == app_effect(app, ActionView::Refresh),
        wake_step(app, WakeView::RefreshTick) == app,
{
}

/// However often it is woken, the application runs until the user quits.
pub proof fn it_runs_until_the_user_quits(app: AppView, wakes: Seq<WakeView>)
    requires
        !app.exit,
    ensures
        after_wakes(app, wakes).exit <==> wakes.contains(WakeView::Action(ActionView::Quit)),
    decreases wakes.len(),
{
    let quit = WakeView::Action(ActionView::Quit);
    if wakes.len() > 0 {
        let before = wakes.drop_last();
        it_runs_until_the_user_quits(app, before);
        assert(wakes =~= before.push(wakes.last()));
        if wakes.contains(quit) && wakes.last() != quit {
            let i = choose|i: int| 0 <= i < wakes.len() && wakes[i] == quit;
            assert(before[i] == quit);
        }
        if before.contains(quit) {
            let i = choose|i: int| 0 <= i < before.len() && before[i] == quit;
            assert(wakes[i] == quit);
        }
    }
}

/// Moving the focus on and back again changes nothing.
pub proof fn focus_forth_and_back(app: AppView)
    ensures
        app_step(app_step(app, ActionView::FocusNext), ActionView::FocusPrevious) == app,
        app_step(app_step(app, ActionView::FocusPrevious), ActionView::FocusNext) == app,
{
}

/// What Spotify told changes only when Spotify tells something else. Between
/// that, the progress alone moves.
pub proof fn only_spotify_changes_the_state(app: AppView, wake: WakeView)
    requires
        !(wake matches WakeView::Action(action) && action is SpotifyStateUpdated),
    ensures
        ({
            let after = wake_step(app, wake).state;
            &&& after == SpotifyState {
                player: Player { progress_ms: after.player.progress_ms, ..app.state.player },
                ..app.state
            }
            &&& !(wake is RenderTick) ==> after == app.state
        }),
{
}

/// Errors are shown until they are closed, the oldest first: closing does not
/// depend on what has come in since.
pub proof fn errors_are_closed_in_order(app: AppView, message: Seq<char>)
    ensures
        ({
            let reported = app_step(app, ActionView::Error(message));
            let closed = app_step(reported, ActionView::Close);
            &&& reported.errors.last() == message
            &&& reported.errors.len() == app.errors.len() + 1
            &&& app.errors.len() == 0 ==> closed == app
            &&& app.errors.len() > 0 ==> closed == app_step(
                app_step(app, ActionView::Close),
                ActionView::Error(message),
            )
        }),
{
    let reported = app_step(app, ActionView::Error(message));
    let closed = app_step(reported, ActionView::Close);
    if app.errors.len() == 0 {
        assert(closed.errors =~= app.errors);
    } else {
        assert(closed.errors =~= app.errors.drop_first().push(message));
    }
}

/// No error is lost: apart from closing, the errors so far stay as they are.
pub proof fn errors_stay_until_closed(app: AppView, wake: WakeView)
    requires
        wake != WakeView::Action(ActionView::Close),
    ensures
        app.errors.is_prefix_of(wake_step(app, wake).errors),
{
}

/// After Spotify has told its state, a selected row is a row of its list.
pub proof fn selections_exist_after_an_update(app: AppView, state: SpotifyState)
    ensures
        ({
            let after = app_step(app, ActionView::SpotifyStateUpdated { state });
            &&& after.state == state
            &&& state.queue is Some && after.queue_state.selected is Some ==> selected_in_queue(
                after,
            ) is Some
            &&& state.history is Some && after.history_state.selected is Some
                ==> selected_in_history(after) is Some
        }),
{
    if let Some(queue) = state.queue {
        assert(queue.queue@.len() == queue.queue.len());
    }
    if let Some(history) = state.history {
        let after = app_step(app, ActionView::SpotifyStateUpdated { state });
        assert(history.items@.len() == history.items.len());
        history.items@.lemma_filter_len(crate::history::has_track());
        if let Some(row) = after.history_state.selected {
            crate::history::played_have_tracks(history.items@, row as int);
        }
    }
}

/// A list keeps its selection as long as neither its own keys nor an update
/// touch it.
pub proof fn selections_are_kept(app: AppView, wake: WakeView)
    requires
        !(wake matches WakeView::Action(action) && action is SpotifyStateUpdated),
    ensures
        !(wake matches WakeView::Action(action) && (action is QueueMoveNext
            || action is QueueMovePrevious || action is QueueFirst || action is QueueLast))
            ==> wake_step(app, wake).queue_state == app.queue_state,
        !(wake matches WakeView::Action(action) && (action is HistoryMoveNext
            || action is HistoryMovePrevious || action is HistoryFirst || action is HistoryLast))
            ==> wake_step(app, wake).history_state == app.history_state,
{
}

/// The volume keys stay within a hundred percent, and where they reach no
/// limit each undoes the other.
pub proof fn volume_keys(volume: u8)
    ensures
        louder(volume) <= 100,
        volume <= 100 ==> softer(volume) <= volume <= louder(volume),
        volume <= 90 ==> softer(louder(volume)) == volume,
        10 <= volume <= 100 ==> louder(softer(volume)) == volume,
{
}

/// The progress never leaves the track, and unless it was beyond the end
/// before, it does not go back.
pub proof fn progress_stays_in_the_track(player: Player, elapsed_millis: u128)
    requires
        player.item is Some,
        player.is_playing,
    ensures
        advanced(player, elapsed_millis).progress_ms <= player.item->0.duration_ms,
        player.progress_ms <= player.item->0.duration_ms ==> player.progress_ms <= advanced(
            player,
            elapsed_millis,
        ).progress_ms,
{
}

/// The progress keeps time: in the middle of a track, two ticks move it as far
/// as one after the same time.
pub proof fn progress_keeps_time(player: Player, first: u128, second: u128)
    requires
        first + second < 0x1_0000_0000,
    ensures
        advanced(advanced(player, first), second) == advanced(player, (first + second) as u128),
{
}

/// Without a device no command is ever sent; the user is told why.
pub proof fn no_device_no_command(app: AppView, wake: WakeView)
    requires
        app.state.player.device is None,
    ensures
        wake_effect(app, wake) matches EffectView::Command { outcome } ==> outcome == Err::<
            crate::request::RequestView,
            SpotifyError,
        >(SpotifyError::NoDevice),
{
}

/// With a device every command can be sent.
pub proof fn device_takes_commands(app: AppView, wake: WakeView)
    requires
        app.state.player.device is Some,
    ensures
        wake_effect(app, wake) matches EffectView::Command { outcome } ==> outcome is Ok,
{
}

/// Playing from a list asks for the very track in the selected row, within the
/// context of the track being played if that has one.
pub proof fn playing_the_selected_track(app: AppView)
    requires
        app.state.player.device is Some,
    ensures
        ({
            let context = context_uri(app.state.player);
            let body = |track: Track|
                if context.len() == 0 {
                    crate::request::BodyView::Uris { uri: track.uri@ }
                } else {
                    crate::request::BodyView::Within { context_uri: context, uri: track.uri@ }
                };
            &&& selected_in_queue(app) matches Some(track) ==> app_effect(
                app,
                ActionView::PlayQueue,
            )->outcome->Ok_0.body == body(track)
            &&& selected_in_history(app) matches Some(track) ==> app_effect(
                app,
                ActionView::PlayHistory,
            )->outcome->Ok_0.body == body(track)
            &&& selected_in_queue(app) is None ==> app_effect(app, ActionView::PlayQueue)
                == EffectView::Nothing
            &&& selected_in_history(app) is None ==> app_effect(app, ActionView::PlayHistory)
                == EffectView::Nothing
        }),
{
}

/// What could not be sent ends up as the last error, in the words of the
/// reason.
pub proof fn a_refusal_is_shown(app: AppView, action: ActionView)
    ensures
        app_effect(app, action) matches EffectView::Command { outcome: Err(error) } ==> {
            let told = app_step(app_step(app, action), ActionView::Error(error.text()));
            &&& told.errors.len() > 0
            &&& told.errors.last() == error.text()
        },
{
}

/// While a track is played, its progress moves by exactly the time that has passed,
/// until the end of the track is reached; there it stays.
pub proof fn progress_moves_with_the_time(player: Player, elapsed: u128)
    requires
        player.is_playing,
        player.item is Some,
        elapsed < 0x1_0000_0000,
    ensures
        ({
            let duration = player.item->0.duration_ms;
            let after = advanced(player, elapsed).progress_ms;
            &&& player.progress_ms + elapsed <= duration ==> after == player.progress_ms + elapsed
            &&& player.progress_ms + elapsed >= duration ==> after == duration
        }),
{
}

/// Without a track nothing but 32 bits stops the progress.
pub proof fn progress_without_a_track(player: Player, elapsed: u128)
    requires
        player.is_playing,
        player.item is None,
        elapsed < 0x1_0000_0000,
    ensures
        ({
            let after = advanced(player, elapsed).progress_ms;
            &&& player.progress_ms + elapsed <= u32::MAX ==> after == player.progress_ms + elapsed
            &&& player.progress_ms + elapsed > u32::MAX ==> after == u32::MAX
        }),
{
}

/// Of a time that 32 bits do not hold, only what they hold counts.
pub proof fn long_times_wrap(player: Player, elapsed: u128, times: u128)
    requires
        elapsed < 0x1_0000_0000,
        elapsed + times * 0x1_0000_0000 <= u128::MAX,
    ensures
        advanced(player, (elapsed + times * 0x1_0000_0000) as u128) == advanced(player, elapsed),
{
    assert((elapsed + times * 0x1_0000_0000) % 0x1_0000_0000 == elapsed as int);
}

/// While nothing is played, time changes nothing; and it never changes anything but
/// the progress.
pub proof fn time_moves_only_the_progress(player: Player, elapsed: u128)
    ensures
        !player.is_playing ==> advanced(player, elapsed) == player,
        ({
            let after = advanced(player, elapsed);
            &&& after.device == player.device
            &&& after.context == player.context
            &&& after.item == player.item
            &&& after.is_playing == player.is_playing
            &&& after.repeat_state == player.repeat_state
            &&& after.shuffle_state == player.shuffle_state
        }),
{
}

/// A state that Spotify has told is taken in as it is, and touches nothing but that
/// and the selections.
pub proof fn the_state_is_taken_in(app: AppView, state: SpotifyState)
    ensures
        ({
            let after = app_step(app, ActionView::SpotifyStateUpdated { state });
            &&& after.state == state
            &&& after.focus == app.focus
            &&& after.errors == app.errors
            &&& after.exit == app.exit
        }),
        app_effect(app, ActionView::SpotifyStateUpdated { state }) == EffectView::RestartClock,
{
}

/// An update leaves a selection alone whose row exists in the new list, and one of a
/// list that is not told. A row that no longer exists becomes the last one; in an
/// empty list nothing is selected.
pub proof fn an_update_keeps_what_it_can(app: AppView, state: SpotifyState)
    ensures
        ({
            let after = app_step(app, ActionView::SpotifyStateUpdated { state }).queue_state;
            let before = app.queue_state;
            &&& state.queue is None ==> after == before
            &&& state.queue matches Some(queue) ==> {
                let count = queue.queue@.len();
                &&& count == 0 ==> after.selected is None && after.offset == 0
                &&& count > 0 ==> {
                    &&& after.offset == before.offset
                    &&& before.selected is None ==> after.selected is None
                    &&& before.selected matches Some(row) ==> {
                        &&& row < count ==> after.selected == Some(row)
                        &&& row >= count ==> after.selected is Some && after.selected->0 == count
                            - 1
                    }
                }
            }
        }),
        ({
            let after = app_step(app, ActionView::SpotifyStateUpdated { state }).history_state;
            let before = app.history_state;
            &&& state.history is None ==> after == before
            &&& state.history matches Some(history) ==> {
                let count = played(history.items@).len();
                &&& count == 0 ==> after.selected is None && after.offset == 0
                &&& count > 0 ==> {
                    &&& after.offset == before.offset
                    &&& before.selected is None ==> after.selected is None
                    &&& before.selected matches Some(row) ==> {
                        &&& row < count ==> after.selected == Some(row)
                        &&& row >= count ==> after.selected is Some && after.selected->0 == count
                            - 1
                    }
                }
            }
        }),
{
    if let Some(queue) = state.queue {
        assert(queue.queue@.len() == queue.queue.len());
    }
    if let Some(history) = state.history {
        assert(history.items@.len() == history.items.len());
        history.items@.lemma_filter_len(crate::history::has_track());
    }
}

/// The keys of a list move its selection by one row, to the first row or beyond the
/// last, and nothing else changes.
pub proof fn moving_in_the_lists(app: AppView)
    ensures
        ({
            let down = app_step(app, ActionView::QueueMoveNext);
            &&& down == AppView { queue_state: down.queue_state, ..app }
            &&& down.queue_state.offset == app.queue_state.offset
            &&& app.queue_state.selected is None ==> down.queue_state.selected == Some(0usize)
            &&& app.queue_state.selected matches Some(row) ==> down.queue_state.selected is Some
                && down.queue_state.selected->0 == if row < usize::MAX {
                row + 1
            } else {
                row as int
            }
        }),
        ({
            let up = app_step(app, ActionView::QueueMovePrevious);
            &&& up == AppView { queue_state: up.queue_state, ..app }
            &&& up.queue_state.offset == app.queue_state.offset
            &&& app.queue_state.selected is None ==> up.queue_state.selected == Some(usize::MAX)
            &&& app.queue_state.selected matches Some(row) ==> up.queue_state.selected is Some
                && up.queue_state.selected->0 == if row > 0 {
                row - 1
            } else {
                0
            }
        }),
        ({
            let first = app_step(app, ActionView::QueueFirst);
            &&& first == AppView { queue_state: first.queue_state, ..app }
            &&& first.queue_state == (Selection {
                selected: Some(0usize),
                offset: app.queue_state.offset,
            })
        }),
        ({
            let last = app_step(app, ActionView::QueueLast);
            &&& last == AppView { queue_state: last.queue_state, ..app }
            &&& last.queue_state == (Selection {
                selected: Some(usize::MAX),
                offset: app.queue_state.offset,
            })
        }),
        ({
            let down = app_step(app, ActionView::HistoryMoveNext);
            &&& down == AppView { history_state: down.history_state, ..app }
            &&& down.history_state.offset == app.history_state.offset
            &&& app.history_state.selected is None ==> down.history_state.selected == Some(0usize)
            &&& app.history_state.selected matches Some(row) ==> down.history_state.selected is Some
                && down.history_state.selected->0 == if row < usize::MAX {
                row + 1
            } else {
                row as int
            }
        }),
        ({
            let up = app_step(app, ActionView::HistoryMovePrevious);
            &&& up == AppView { history_state: up.history_state, ..app }
            &&& up.history_state.offset == app.history_state.offset
            &&& app.history_state.selected is None ==> up.history_state.selected == Some(usize::MAX)
            &&& app.history_state.selected matches Some(row) ==> up.history_state.selected is Some
                && up.history_state.selected->0 == if row > 0 {
                row - 1
            } else {
                0
            }
        }),
        ({
            let first = app_step(app, ActionView::HistoryFirst);
            &&& first == AppView { history_state: first.history_state, ..app }
            &&& first.history_state == (Selection {
                selected: Some(0usize),
                offset: app.history_state.offset,
            })
        }),
        ({
            let last = app_step(app, ActionView::HistoryLast);
            &&& last == AppView { history_state: last.history_state, ..app }
            &&& last.history_state == (Selection {
                selected: Some(usize::MAX),
                offset: app.history_state.offset,
            })
        }),
{
}

/// Down and up again, and up and down again, come back to the same row.
pub proof fn moving_forth_and_back(app: AppView, row: usize)
    requires
        0 < row < usize::MAX,
    ensures
        app.queue_state.selected == Some(row) ==> {
            &&& app_step(
                app_step(app, ActionView::QueueMoveNext),
                ActionView::QueueMovePrevious,
            ) == app
            &&& app_step(
                app_step(app, ActionView::QueueMovePrevious),
                ActionView::QueueMoveNext,
            ) == app
        },
        app.history_state.selected == Some(row) ==> {
            &&& app_step(
                app_step(app, ActionView::HistoryMoveNext),
                ActionView::HistoryMovePrevious,
            ) == app
            &&& app_step(
                app_step(app, ActionView::HistoryMovePrevious),
                ActionView::HistoryMoveNext,
            ) == app
        },
{
}

/// Commands, and the wish for a refresh, change nothing themselves.
pub proof fn commands_change_nothing_here(app: AppView, action: ActionView)
    requires
        app_effect(app, action) is Command || app_effect(app, action) is Refresh
            || action is PlayQueue || action is PlayHistory || action is QueueHistory
            || action is Tick || action is Render,
    ensures
        app_step(app, action) == app,
{
}

/// What each action leaves to be done: a command for these, a refresh and a restart
/// of the clock for one each, and nothing for the others.
pub proof fn effects_of_actions(app: AppView, action: ActionView)
    ensures
        app_effect(app, action) is Refresh <==> action is Refresh,
        app_effect(app, action) is RestartClock <==> action is SpotifyStateUpdated,
        action is PauseResume || action is Next || action is Previous || action is VolumeUp
            || action is VolumeDown || action is Mute || action is ToggleShuffle
            || action is ToggleRepeat ==> app_effect(app, action) is Command,
        action is Quit || action is Close || action is Tick || action is Render
            || action is FocusNext || action is FocusPrevious || action is QueueMoveNext
            || action is QueueMovePrevious || action is QueueFirst || action is QueueLast
            || action is HistoryMoveNext || action is HistoryMovePrevious || action is HistoryFirst
            || action is HistoryLast || action is Error ==> app_effect(app, action) is Nothing,
{
}

/// The call to Spotify that an action leads to, if it can be made.
pub open spec fn call_of(app: AppView, action: ActionView) -> RequestView {
    app_effect(app, action)->outcome->Ok_0
}

/// What the keys of the player send, with a device.
pub proof fn calls_of_the_player(app: AppView)
    requires
        app.state.player.device is Some,
    ensures
        ({
            let player = app.state.player;
            let device = player.device->0;
            let named = ("device_id"@, device.id@);
            &&& player.is_playing ==> call_of(app, ActionView::PauseResume).url
                == "https://api.spotify.com/v1/me/player/pause"@
            &&& !player.is_playing ==> call_of(app, ActionView::PauseResume).url
                == "https://api.spotify.com/v1/me/player/play"@
            &&& call_of(app, ActionView::PauseResume).method == Method::Put
            &&& call_of(app, ActionView::PauseResume).query == seq![named]
            &&& call_of(app, ActionView::PauseResume).body is Empty
            &&& call_of(app, ActionView::Next) == (RequestView {
                method: Method::Post,
                url: "https://api.spotify.com/v1/me/player/next"@,
                query: seq![named],
                body: BodyView::Empty,
            })
            &&& call_of(app, ActionView::Previous) == (RequestView {
                method: Method::Post,
                url: "https://api.spotify.com/v1/me/player/previous"@,
                query: seq![named],
                body: BodyView::Empty,
            })
            &&& call_of(app, ActionView::ToggleShuffle).query[0].1 == if player.shuffle_state {
                "false"@
            } else {
                "true"@
            }
            &&& call_of(app, ActionView::ToggleShuffle).url
                == "https://api.spotify.com/v1/me/player/shuffle"@
            &&& call_of(app, ActionView::ToggleRepeat).url
                == "https://api.spotify.com/v1/me/player/repeat"@
            &&& call_of(app, ActionView::ToggleRepeat).query[0].1 == following_repeat_state(
                player.repeat_state@,
            )
            &&& call_of(app, ActionView::ToggleShuffle).method == Method::Put
            &&& call_of(app, ActionView::ToggleRepeat).method == Method::Put
            &&& call_of(app, ActionView::ToggleShuffle).query[1] == named
            &&& call_of(app, ActionView::ToggleRepeat).query[1] == named
        }),
{
}

/// The volume that is asked for: ten more than now but not over a hundred, ten less
/// but not under nothing, and nothing at all.
pub proof fn calls_of_the_volume_keys(app: AppView, action: ActionView)
    requires
        app.state.player.device is Some,
        action is VolumeUp || action is VolumeDown || action is Mute,
    ensures
        ({
            let call = call_of(app, action);
            let now = app.state.player.device->0.volume_percent;
            let asked = number_of(call.query[1].1);
            &&& call.method == Method::Put
            &&& call.url == "https://api.spotify.com/v1/me/player/volume"@
            &&& call.query.len() == 2
            &&& call.query[0] == ("device_id"@, app.state.player.device->0.id@)
            &&& call.query[1].0 == "volume_percent"@
            &&& call.body is Empty
            &&& action is Mute ==> asked == 0
            &&& action is VolumeUp && now <= 90 ==> asked == now + 10
            &&& action is VolumeUp && now >= 90 ==> asked == 100
            &&& action is VolumeDown && now >= 10 ==> asked == now - 10
            &&& action is VolumeDown && now <= 10 ==> asked == 0
        }),
{
    let player = app.state.player;
    numerals_can_be_read_back(louder(base_volume(player)) as int);
    numerals_can_be_read_back(softer(base_volume(player)) as int);
    numerals_can_be_read_back(0);
}

/// The volume is that of the device; without one it is not known, and counts as none.
pub proof fn the_volume_of_the_device(player: Player)
    ensures
        player.device matches Some(device) ==> device_volume(player) == Ok::<u8, SpotifyError>(
            device.volume_percent,
        ) && base_volume(player) == device.volume_percent,
        player.device is None ==> device_volume(player) == Err::<u8, SpotifyError>(
            SpotifyError::NoDevice,
        ) && base_volume(player) == 0,
{
}

/// Enter on a row of the queue starts the track of that very row: by the call that
/// resumes, with a body that names it, and the context that is being played if there
/// is one. Without such a row nothing happens.
pub proof fn enter_plays_the_row_of_the_queue(app: AppView, queue: Queue, row: usize)
    requires
        app.state.queue == Some(queue),
        app.queue_state.selected == Some(row),
        app.state.player.device is Some,
    ensures
        row >= queue.queue@.len() ==> app_effect(app, ActionView::PlayQueue) is Nothing,
        row < queue.queue@.len() ==> is_start_of(
            app,
            app_effect(app, ActionView::PlayQueue),
            queue.queue@[row as int],
        ),
{
}

/// Enter on a row of the history does the same for the track of that row, entries
/// without a track not counting.
pub proof fn enter_plays_the_row_of_the_history(app: AppView, history: History, row: usize)
    requires
        app.state.history == Some(history),
        app.history_state.selected == Some(row),
        app.state.player.device is Some,
    ensures
        row >= played(history.items@).len() ==> app_effect(app, ActionView::PlayHistory) is Nothing
            && app_effect(app, ActionView::QueueHistory) is Nothing,
        row < played(history.items@).len() ==> {
            let track = played(history.items@)[row as int].track->0;
            let queueing = call_of(app, ActionView::QueueHistory);
            &&& is_start_of(app, app_effect(app, ActionView::PlayHistory), track)
            &&& app_effect(app, ActionView::QueueHistory) is Command
            &&& queueing.method == Method::Post
            &&& queueing.url == "https://api.spotify.com/v1/me/player/queue"@
            &&& queueing.query == seq![
                ("device_id"@, app.state.player.device->0.id@),
                ("uri"@, track.uri@),
            ]
            &&& queueing.body is Omitted
        },
{
    if row < played(history.items@).len() {
        crate::history::played_have_tracks(history.items@, row as int);
    }
}

/// The effect is the call that starts `track`, and is what resuming is but for its
/// body.
pub open spec fn is_start_of(app: AppView, effect: EffectView, track: Track) -> bool {
    let player = app.state.player;
    &&& effect is Command
    &&& effect->outcome is Ok
    &&& effect->outcome->Ok_0.method == Method::Put
    &&& effect->outcome->Ok_0.url == "https://api.spotify.com/v1/me/player/play"@
    &&& effect->outcome->Ok_0.query == seq![("device_id"@, player.device->0.id@)]
    &&& resume_request(player) == Ok::<RequestView, SpotifyError>(
        RequestView { body: BodyView::Empty, ..effect->outcome->Ok_0 },
    )
    &&& match player.context {
        Some(context) if context.uri@.len() > 0 => effect->outcome->Ok_0.body == (
        BodyView::Within { context_uri: context.uri@, uri: track.uri@ }),
        _ => effect->outcome->Ok_0.body == (BodyView::Uris { uri: track.uri@ }),
    }
}

/// Without a selection, or without a list, there is nothing to play or to queue.
pub proof fn nothing_selected_nothing_played(app: AppView)
    ensures
        app.queue_state.selected is None || app.state.queue is None ==> app_effect(
            app,
            ActionView::PlayQueue,
        ) is Nothing,
        app.history_state.selected is None || app.state.history is None ==> app_effect(
            app,
            ActionView::PlayHistory,
        ) is Nothing && app_effect(app, ActionView::QueueHistory) is Nothing,
{
}

/// Quitting, closing, moving the focus and reporting an error each change one thing.
pub proof fn each_changes_one_thing(app: AppView, message: Seq<char>)
    ensures
        app_step(app, ActionView::Quit) == (AppView { exit: true, ..app }),
        app_step(app, ActionView::Error(message)) == (AppView {
            errors: app.errors.push(message),
            ..app
        }),
        app.errors.len() > 0 ==> app_step(app, ActionView::Close) == (AppView {
            errors: app.errors.skip(1),
            ..app
        }),
        app.errors.len() == 0 ==> app_step(app, ActionView::Close) == app,
        app.focus matches Some(focus) ==> app_step(app, ActionView::FocusNext) == (AppView {
            focus: Some(focus_after(focus)),
            ..app
        }) && app_step(app, ActionView::FocusPrevious) == (AppView {
            focus: Some(focus_before(focus)),
            ..app
        }),
        app.focus is None ==> app_step(app, ActionView::FocusNext) == app && app_step(
            app,
            ActionView::FocusPrevious,
        ) == app,
{
    if app.errors.len() > 0 {
        assert(app.errors.drop_first() =~= app.errors.skip(1));
    }
}

/// What wakes the application: an action does what it does and the screen is drawn;
/// so it is at every render tick, at which the progress moves and the clock starts
/// anew if something is played.
pub proof fn what_wakes_do(app: AppView, action: ActionView, elapsed_millis: u128)
    ensures
        ({
            let wake = WakeView::Action(action);
            &&& wake_step(app, wake) == app_step(app, action)
            &&& wake_effect(app, wake) == app_effect(app, action)
            &&& wake_redraws(wake)
        }),
        ({
            let wake = WakeView::RenderTick { elapsed_millis };
            let after = wake_step(app, wake);
            &&& after.state.player == advanced(app.state.player, elapsed_millis)
            &&& after == AppView {
                state: SpotifyState { player: after.state.player, ..app.state },
                ..app
            }
            &&& wake_redraws(wake)
            &&& app.state.player.is_playing ==> wake_effect(app, wake) is RestartClock
            &&& !app.state.player.is_playing ==> wake_effect(app, wake) is Nothing
        }),
        !wake_redraws(WakeView::RefreshTick),
{
}

/// Nothing of the application is left out of its view.
pub proof fn the_application_keeps_its_parts(app: App)
    ensures
        app@.state == app.state,
        app@.focus == app.focus,
        app@.queue_state == app.queue_state,
        app@.history_state == app.history_state,
        app@.exit == app.exit,
        app@.errors.len() == app.error_list@.len(),
        forall|i: int|
            0 <= i < app.error_list@.len() ==> #[trigger] app@.errors[i] == app.error_list@[i]@,
{
}

/// The screen is drawn thirty times a second, and the state is asked for every ten
/// seconds.
pub proof fn periods()
    ensures
        RENDER_PERIOD_MILLIS == 33,
        REFRESH_PERIOD_MILLIS == 10 * 1000,
{
}

/// A command that failed leaves its text as the last error; a refresh that succeeded
/// leaves its state.
pub proof fn outcomes_reach_the_user(
    app: AppView,
    command: Result<(), String>,
    refresh: Result<SpotifyState, String>,
)
    ensures
        command matches Err(error) ==> app_step(app, command_follow_up(command)) == (AppView {
            errors: app.errors.push(error@),
            ..app
        }),
        command is Ok ==> app_effect(app, command_follow_up(command)) is Refresh,
        refresh matches Err(error) ==> app_step(app, refresh_follow_up(refresh)) == (AppView {
            errors: app.errors.push("Refresh failed: "@ + error@),
            ..app
        }),
        refresh matches Ok(state) ==> app_step(app, refresh_follow_up(refresh)).state == state,
{
}

/// The context is that of what is being played, and empty without one.
pub proof fn the_context_of_what_is_played(player: Player)
    ensures
        player.context matches Some(context) ==> context_uri(player) == context.uri@,
        player.context is None ==> context_uri(player).len() == 0,
{
}

/// Nothing of what wakes the application is left out of its view.
pub proof fn wakes_keep_their_parts(wake: Wake)
    ensures
        wake matches Wake::Action(action) ==> wake@ == WakeView::Action(action@),
        wake matches Wake::RenderTick { elapsed_millis } ==> wake@ == (WakeView::RenderTick {
            elapsed_millis,
        }),
        wake is RefreshTick <==> wake@ is RefreshTick,
{
}

} // verus!
