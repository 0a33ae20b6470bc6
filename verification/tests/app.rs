use spotuify::action::{after_refusal, Action, Effect};
use spotuify::app::{App, Wake, REFRESH_PERIOD_MILLIS, RENDER_PERIOD_MILLIS};
use spotuify::error::SpotifyError;
use spotuify::focus::Focus;
use spotuify::history::{nth_played, played_count};
use spotuify::model::{
    Context, Device, History, PlayedTrack, Player, Queue, SpotifyState, Track,
};
use spotuify::request::{ApiRequest, Body, Method};
use spotuify::selection::{clamp, Selection};

fn track(name: &str) -> Track {
    Track {
        id: String::new(),
        name: name.to_string(),
        uri: format!("spotify:track:{name}"),
        duration_ms: 100_000,
        artists: Vec::new(),
    }
}

fn player() -> Player {
    Player {
        device: Some(Device {
            id: "dev".to_string(),
            name: "Speaker".to_string(),
            volume_percent: 40,
            is_active: true,
        }),
        progress_ms: 30_000,
        context: Some(Context { uri: "spotify:album:x".to_string() }),
        item: Some(track("now")),
        is_playing: true,
        repeat_state: "off".to_string(),
        shuffle_state: false,
    }
}

fn entry(name: Option<&str>) -> PlayedTrack {
    PlayedTrack { track: name.map(track), played_at: String::new() }
}

fn state(queue: &[&str], history: &[Option<&str>]) -> SpotifyState {
    SpotifyState {
        player: player(),
        queue: Some(Queue {
            currently_playing: None,
            queue: queue.iter().map(|name| track(name)).collect(),
        }),
        history: Some(History { items: history.iter().map(|name| entry(*name)).collect() }),
    }
}

fn app(queue: &[&str], history: &[Option<&str>]) -> App {
    let mut app = App::new();
    app.state = state(queue, history);
    app
}

fn sent(effect: Effect) -> ApiRequest {
    match effect {
        Effect::Command { outcome: Ok(request) } => request,
        other => panic!("{other:?}"),
    }
}

fn value(request: &ApiRequest, name: &str) -> String {
    request.query.iter().find(|pair| pair.0 == name).unwrap().1.clone()
}

#[test]
fn the_application_starts_with_nothing() {
    let app = App::new();
    assert_eq!(app.focus, Some(Focus::Player));
    assert_eq!(app.queue_state, Selection { selected: None, offset: 0 });
    assert_eq!(app.history_state, Selection { selected: None, offset: 0 });
    assert!(app.error_list.is_empty());
    assert!(app.is_running());
    assert!(app.state.queue.is_none());
    assert!(matches!(App::first_action(), Action::Refresh));
    assert_eq!((RENDER_PERIOD_MILLIS, REFRESH_PERIOD_MILLIS), (33, 10_000));
}

#[test]
fn quitting() {
    let mut app = app(&[], &[]);
    let turn = app.wake(Wake::Action(Action::Tick));
    assert!(turn.redraw && app.is_running());
    let turn = app.wake(Wake::Action(Action::Quit));
    assert!(turn.redraw && !app.is_running());
    assert!(matches!(turn.effect, Effect::Nothing));
    app.wake(Wake::Action(Action::Render));
    assert!(!app.is_running());
}

#[test]
fn a_refresh_tick_asks_for_the_state() {
    let mut app = app(&["a"], &[]);
    for _ in 0..2 {
        let turn = app.wake(Wake::RefreshTick);
        assert!(!turn.redraw);
        assert!(matches!(turn.effect, Effect::Refresh));
        assert_eq!(app.state.player.progress_ms, 30_000);
    }
}

#[test]
fn the_focus_moves() {
    let mut app = app(&[], &[]);
    app.update(Action::FocusNext);
    assert_eq!(app.focus, Some(Focus::History));
    app.update(Action::FocusPrevious);
    app.update(Action::FocusPrevious);
    assert_eq!(app.focus, Some(Focus::Queue));
    app.focus = None;
    app.update(Action::FocusNext);
    app.update(Action::FocusPrevious);
    assert_eq!(app.focus, None);
}

#[test]
fn errors_are_closed_oldest_first() {
    let mut app = app(&[], &[]);
    app.update(Action::Close);
    assert!(app.error_list.is_empty());
    app.update(Action::Error("one".to_string()));
    app.update(Action::Error("two".to_string()));
    app.update(Action::Close);
    app.update(Action::Error("three".to_string()));
    assert_eq!(app.error_list, vec!["two".to_string(), "three".to_string()]);
    app.update(Action::Close);
    app.update(Action::Close);
    app.update(Action::Close);
    assert!(app.error_list.is_empty());
}

#[test]
fn pausing_and_resuming() {
    let mut app = app(&[], &[]);
    assert!(sent(app.update(Action::PauseResume)).url.ends_with("/pause"));
    app.state.player.is_playing = false;
    let request = sent(app.update(Action::PauseResume));
    assert!(request.url.ends_with("/play"));
    assert!(matches!(request.body, Body::Empty));
}

#[test]
fn skipping() {
    let mut app = app(&[], &[]);
    let request = sent(app.update(Action::Next));
    assert_eq!(request.method, Method::Post);
    assert!(request.url.ends_with("/next"));
    assert!(sent(app.update(Action::Previous)).url.ends_with("/previous"));
}

#[test]
fn the_volume_keys() {
    for (volume, up, down) in
        [(40, "50", "30"), (0, "10", "0"), (9, "19", "0"), (91, "100", "81"), (100, "100", "90"), (255, "100", "245")]
    {
        let mut app = app(&[], &[]);
        app.state.player.device.as_mut().unwrap().volume_percent = volume;
        assert_eq!(app.get_volume_percent(), Ok(volume));
        assert_eq!(value(&sent(app.update(Action::VolumeUp)), "volume_percent"), up);
        assert_eq!(value(&sent(app.update(Action::VolumeDown)), "volume_percent"), down);
        assert_eq!(value(&sent(app.update(Action::Mute)), "volume_percent"), "0");
    }
}

#[test]
fn shuffle_and_repeat() {
    let mut app = app(&[], &[]);
    assert_eq!(value(&sent(app.update(Action::ToggleShuffle)), "state"), "true");
    assert_eq!(value(&sent(app.update(Action::ToggleRepeat)), "state"), "track");
}

#[test]
fn refreshing() {
    let mut app = app(&[], &[]);
    assert!(matches!(app.update(Action::Refresh), Effect::Refresh));
}

#[test]
fn without_a_device_commands_are_refused() {
    let mut app = app(&["a"], &[Some("b")]);
    app.state.player.device = None;
    app.update(Action::QueueFirst);
    app.update(Action::HistoryFirst);
    assert_eq!(app.get_volume_percent(), Err(SpotifyError::NoDevice));
    for action in [
        Action::PauseResume,
        Action::Next,
        Action::Previous,
        Action::VolumeUp,
        Action::VolumeDown,
        Action::Mute,
        Action::ToggleShuffle,
        Action::ToggleRepeat,
        Action::PlayQueue,
        Action::PlayHistory,
        Action::QueueHistory,
    ] {
        match app.update(action) {
            Effect::Command { outcome: Err(error) } => {
                assert_eq!(error, SpotifyError::NoDevice);
                app.update(after_refusal(error));
            }
            other => panic!("{other:?}"),
        }
    }
    assert_eq!(app.error_list.len(), 11);
    assert_eq!(app.error_list[10], "No Spotify device found");
}

#[test]
fn moving_in_the_queue() {
    let mut app = app(&["a", "b", "c"], &[]);
    app.update(Action::QueueMoveNext);
    assert_eq!(app.queue_state.selected, Some(0));
    app.update(Action::QueueMoveNext);
    assert_eq!(app.queue_state.selected, Some(1));
    app.update(Action::QueueMovePrevious);
    app.update(Action::QueueMovePrevious);
    assert_eq!(app.queue_state.selected, Some(0));
    app.update(Action::QueueLast);
    assert_eq!(app.queue_state.selected, Some(usize::MAX));
    app.update(Action::QueueMoveNext);
    assert_eq!(app.queue_state.selected, Some(usize::MAX));
    app.update(Action::QueueFirst);
    assert_eq!(app.queue_state.selected, Some(0));
    assert_eq!(app.history_state.selected, None);
}

#[test]
fn moving_in_the_history() {
    let mut app = app(&[], &[Some("a")]);
    app.history_state.offset = 4;
    app.update(Action::HistoryMovePrevious);
    assert_eq!(app.history_state, Selection { selected: Some(usize::MAX), offset: 4 });
    app.update(Action::HistoryMovePrevious);
    assert_eq!(app.history_state.selected, Some(usize::MAX - 1));
    app.update(Action::HistoryFirst);
    app.update(Action::HistoryMoveNext);
    assert_eq!(app.history_state.selected, Some(1));
    app.update(Action::HistoryLast);
    assert_eq!(app.history_state.selected, Some(usize::MAX));
    assert_eq!(app.queue_state.selected, None);
}

#[test]
fn playing_from_the_queue() {
    let mut app = app(&["a", "b"], &[]);
    assert!(matches!(app.update(Action::PlayQueue), Effect::Nothing));
    app.queue_state.selected = Some(1);
    let request = sent(app.update(Action::PlayQueue));
    assert!(matches!(
        request.body,
        Body::Within { context_uri, uri } if context_uri == "spotify:album:x"
            && uri == "spotify:track:b"
    ));
    app.state.player.context = None;
    let request = sent(app.update(Action::PlayQueue));
    assert!(matches!(request.body, Body::Uris { uri } if uri == "spotify:track:b"));
    app.queue_state.selected = Some(2);
    assert!(matches!(app.update(Action::PlayQueue), Effect::Nothing));
    app.state.queue = None;
    app.queue_state.selected = Some(0);
    assert!(matches!(app.update(Action::PlayQueue), Effect::Nothing));
}

#[test]
fn playing_and_queueing_from_the_history() {
    let mut app = app(&[], &[None, Some("a"), None, Some("b")]);
    assert!(matches!(app.update(Action::PlayHistory), Effect::Nothing));
    app.history_state.selected = Some(1);
    assert_eq!(app.selected_history_track().unwrap().name, "b");
    let request = sent(app.update(Action::PlayHistory));
    assert!(matches!(request.body, Body::Within { uri, .. } if uri == "spotify:track:b"));
    let request = sent(app.update(Action::QueueHistory));
    assert!(request.url.ends_with("/queue"));
    assert_eq!(value(&request, "uri"), "spotify:track:b");
    app.history_state.selected = Some(2);
    assert!(matches!(app.update(Action::PlayHistory), Effect::Nothing));
    assert!(matches!(app.update(Action::QueueHistory), Effect::Nothing));
}

#[test]
fn the_context_of_the_track() {
    let mut app = app(&[], &[]);
    assert_eq!(app.get_context_uri().unwrap(), "spotify:album:x");
    app.state.player.context = None;
    assert_eq!(app.get_context_uri(), Err(SpotifyError::NoContext));
}

#[test]
fn an_update_brings_the_selections_back() {
    let mut app = App::new();
    app.queue_state = Selection { selected: Some(7), offset: 3 };
    app.history_state = Selection { selected: Some(usize::MAX), offset: 5 };
    let effect =
        app.update(Action::SpotifyStateUpdated { state: state(&["a", "b"], &[None, Some("c")]) });
    assert!(matches!(effect, Effect::RestartClock));
    assert_eq!(app.queue_state, Selection { selected: Some(1), offset: 3 });
    assert_eq!(app.history_state, Selection { selected: Some(0), offset: 5 });
    app.update(Action::SpotifyStateUpdated { state: state(&[], &[None]) });
    assert_eq!(app.queue_state, Selection { selected: None, offset: 0 });
    assert_eq!(app.history_state, Selection { selected: None, offset: 0 });
}

#[test]
fn unknown_lists_leave_the_selections_alone() {
    let mut app = App::new();
    app.queue_state = Selection { selected: Some(7), offset: 3 };
    app.history_state = Selection { selected: Some(8), offset: 4 };
    app.update(Action::SpotifyStateUpdated { state: SpotifyState::default() });
    assert_eq!(app.queue_state, Selection { selected: Some(7), offset: 3 });
    assert_eq!(app.history_state, Selection { selected: Some(8), offset: 4 });
}

#[test]
fn selections_that_exist_are_kept() {
    let kept = Selection { selected: Some(2), offset: 1 };
    assert_eq!(clamp(kept, 3), kept);
    assert_eq!(clamp(kept, 2), Selection { selected: Some(1), offset: 1 });
    assert_eq!(clamp(kept, 0), Selection { selected: None, offset: 0 });
    let none = Selection { selected: None, offset: 6 };
    assert_eq!(clamp(none, 3), none);
}

#[test]
fn progress_moves_while_playing() {
    let mut app = app(&[], &[]);
    let turn = app.wake(Wake::RenderTick { elapsed_millis: 33 });
    assert!(turn.redraw);
    assert!(matches!(turn.effect, Effect::RestartClock));
    assert_eq!(app.state.player.progress_ms, 30_033);
    assert!(app.update_progress(69_966));
    assert_eq!(app.state.player.progress_ms, 99_999);
    assert!(app.update_progress(33));
    assert_eq!(app.state.player.progress_ms, 100_000);
}

#[test]
fn progress_stands_still_while_paused() {
    let mut app = app(&[], &[]);
    app.state.player.is_playing = false;
    let turn = app.wake(Wake::RenderTick { elapsed_millis: 33 });
    assert!(turn.redraw);
    assert!(matches!(turn.effect, Effect::Nothing));
    assert_eq!(app.state.player.progress_ms, 30_000);
}

#[test]
fn progress_at_the_limits() {
    let mut app = app(&[], &[]);
    app.state.player.item = None;
    app.update_progress((1 << 32) + 5);
    assert_eq!(app.state.player.progress_ms, 30_005);
    app.update_progress(u32::MAX as u128);
    assert_eq!(app.state.player.progress_ms, u32::MAX);
    app.state.player.item = Some(track("short"));
    app.update_progress(0);
    assert_eq!(app.state.player.progress_ms, 100_000);
}

#[test]
fn entries_without_a_track_are_skipped() {
    let items: Vec<PlayedTrack> = vec![entry(None), entry(Some("a")), entry(None), entry(Some("b"))];
    assert_eq!(played_count(&items), 2);
    assert_eq!(nth_played(&items, 0).unwrap().name, "a");
    assert_eq!(nth_played(&items, 1).unwrap().name, "b");
    assert!(nth_played(&items, 2).is_none());
    assert_eq!(played_count(&Vec::new()), 0);
}
