use spotuify::action::{after_command, after_refresh, after_refusal, Action};
use spotuify::error::SpotifyError;
use spotuify::fetch::{Endpoint, Fetch, Reply};
use spotuify::model::{Artist, Context, Device, Player, Queue, SpotifyState, Track};
use spotuify::request::{Body, Method};

fn track(name: &str, duration_ms: u32) -> Track {
    Track {
        id: format!("id-{name}"),
        name: name.to_string(),
        uri: format!("spotify:track:{name}"),
        duration_ms,
        artists: vec![Artist { id: "a".to_string(), name: "Artist".to_string() }],
    }
}

fn player() -> Player {
    Player {
        device: Some(Device {
            id: "dev".to_string(),
            name: "Speaker".to_string(),
            volume_percent: 40,
            is_active: true,
        }),
        progress_ms: 30_000,
        context: Some(Context { uri: "spotify:album:x".to_string() }),
        item: Some(track("one", 100_000)),
        is_playing: true,
        repeat_state: "off".to_string(),
        shuffle_state: false,
    }
}

fn pair(name: &str, value: &str) -> (String, String) {
    (name.to_string(), value.to_string())
}

#[test]
fn duration_and_remaining_time() {
    let mut p = player();
    assert_eq!(p.get_duration(), Ok(100_000));
    assert_eq!(p.get_remaining(), Ok(70_000));
    p.progress_ms = 100_001;
    assert_eq!(p.get_remaining(), Ok(0));
    p.item = None;
    assert_eq!(p.get_duration(), Err(SpotifyError::NoTrack));
    assert_eq!(p.get_remaining(), Err(SpotifyError::NoTrack));
}

#[test]
fn the_device_is_needed_for_every_command() {
    let mut p = player();
    assert_eq!(p.device().unwrap().name, "Speaker");
    p.device = None;
    assert_eq!(p.device().err(), Some(SpotifyError::NoDevice));
    assert_eq!(p.resume().err(), Some(SpotifyError::NoDevice));
    assert_eq!(p.pause().err(), Some(SpotifyError::NoDevice));
    assert_eq!(p.next().err(), Some(SpotifyError::NoDevice));
    assert_eq!(p.prev().err(), Some(SpotifyError::NoDevice));
    assert_eq!(p.volume(3).err(), Some(SpotifyError::NoDevice));
    assert_eq!(p.queue("u").err(), Some(SpotifyError::NoDevice));
    assert_eq!(p.play("u", "c").err(), Some(SpotifyError::NoDevice));
    assert_eq!(p.toggle_shuffle().err(), Some(SpotifyError::NoDevice));
    assert_eq!(p.toggle_repeat().err(), Some(SpotifyError::NoDevice));
}

#[test]
fn bare_commands() {
    let p = player();
    for (request, method, url) in [
        (p.resume(), Method::Put, "https://api.spotify.com/v1/me/player/play"),
        (p.pause(), Method::Put, "https://api.spotify.com/v1/me/player/pause"),
        (p.next(), Method::Post, "https://api.spotify.com/v1/me/player/next"),
        (p.prev(), Method::Post, "https://api.spotify.com/v1/me/player/previous"),
    ] {
        let request = request.unwrap();
        assert_eq!(request.method, method);
        assert_eq!(request.url, url);
        assert_eq!(request.query, vec![pair("device_id", "dev")]);
        assert!(matches!(request.body, Body::Empty));
    }
}

#[test]
fn volume_command() {
    let request = player().volume(55).unwrap();
    assert_eq!(request.method, Method::Put);
    assert_eq!(request.url, "https://api.spotify.com/v1/me/player/volume");
    assert_eq!(request.query, vec![pair("device_id", "dev"), pair("volume_percent", "55")]);
    assert!(matches!(request.body, Body::Empty));
}

#[test]
fn queue_command() {
    let request = player().queue("spotify:track:7").unwrap();
    assert_eq!(request.method, Method::Post);
    assert_eq!(request.url, "https://api.spotify.com/v1/me/player/queue");
    assert_eq!(request.query, vec![pair("device_id", "dev"), pair("uri", "spotify:track:7")]);
    assert!(matches!(request.body, Body::Omitted));
}

#[test]
fn play_command_with_and_without_context() {
    let alone = player().play("t", "").unwrap();
    assert_eq!(alone.url, "https://api.spotify.com/v1/me/player/play");
    assert_eq!(alone.query, vec![pair("device_id", "dev")]);
    assert!(matches!(alone.body, Body::Uris { uri } if uri == "t"));
    let within = player().play("t", "c").unwrap();
    assert!(matches!(
        within.body,
        Body::Within { context_uri, uri } if context_uri == "c" && uri == "t"
    ));
}

#[test]
fn shuffle_asks_for_the_opposite() {
    let mut p = player();
    let request = p.toggle_shuffle().unwrap();
    assert_eq!(request.url, "https://api.spotify.com/v1/me/player/shuffle");
    assert_eq!(request.query, vec![pair("state", "true"), pair("device_id", "dev")]);
    p.shuffle_state = true;
    assert_eq!(
        p.toggle_shuffle().unwrap().query,
        vec![pair("state", "false"), pair("device_id", "dev")]
    );
}

#[test]
fn repeat_goes_round() {
    for (from, to) in
        [("track", "context"), ("context", "off"), ("off", "track"), ("", "context"), ("x", "context")]
    {
        let mut p = player();
        p.repeat_state = from.to_string();
        let request = p.toggle_repeat().unwrap();
        assert_eq!(request.url, "https://api.spotify.com/v1/me/player/repeat");
        assert_eq!(request.query, vec![pair("state", to), pair("device_id", "dev")]);
    }
}

#[test]
fn questions_and_their_answers() {
    for (endpoint, url, absence) in [
        (
            Endpoint::Player,
            "https://api.spotify.com/v1/me/player",
            SpotifyError::NothingPlaying,
        ),
        (
            Endpoint::Queue,
            "https://api.spotify.com/v1/me/player/queue",
            SpotifyError::QueueEmpty,
        ),
        (
            Endpoint::History,
            "https://api.spotify.com/v1/me/player/recently-played",
            SpotifyError::NothingPlayed,
        ),
    ] {
        let request = endpoint.request();
        assert_eq!(request.method, Method::Get);
        assert_eq!(request.url, url);
        assert!(request.query.is_empty());
        assert!(matches!(request.body, Body::Omitted));
        assert_eq!(endpoint.accept(204), Err(absence));
        assert_eq!(endpoint.accept(200), Ok(()));
        assert_eq!(endpoint.accept(500), Ok(()));
    }
}

#[test]
fn fetching_collects_player_and_queue() {
    let fetch = Fetch::start();
    assert_eq!(fetch.question(), Some(Endpoint::Player));
    let fetch = fetch.step(Reply::Player { player: player() });
    assert_eq!(fetch.question(), Some(Endpoint::Queue));
    let queue = Queue { currently_playing: None, queue: vec![track("two", 1)] };
    let fetch = fetch.step(Reply::Queue { queue });
    assert_eq!(fetch.question(), None);
    let fetch = fetch.step(Reply::Error { error: "late".to_string() });
    match fetch {
        Fetch::Done { state } => {
            assert_eq!(state.player.progress_ms, 30_000);
            assert_eq!(state.queue.unwrap().queue[0].name, "two");
            assert!(state.history.is_none());
        }
        other => panic!("{other:?}"),
    }
}

#[test]
fn fetching_stops_at_the_first_error() {
    let failed = Fetch::start().step(Reply::Error { error: "down".to_string() });
    assert_eq!(failed.question(), None);
    assert!(matches!(failed, Fetch::Failed { error } if error == "down"));
    let failed = Fetch::start()
        .step(Reply::Player { player: player() })
        .step(Reply::Error { error: "lost".to_string() });
    assert!(matches!(failed, Fetch::Failed { error } if error == "lost"));
}

#[test]
fn answers_that_were_not_asked_for_change_nothing() {
    let fetch = Fetch::start()
        .step(Reply::Queue { queue: Queue { currently_playing: None, queue: Vec::new() } });
    assert!(matches!(fetch, Fetch::Player));
}

#[test]
fn a_command_is_followed_by_a_refresh_or_an_error() {
    assert!(matches!(after_command(Ok(())), Action::Refresh));
    assert!(matches!(after_command(Err("403".to_string())), Action::Error(e) if e == "403"));
    assert!(matches!(
        after_refusal(SpotifyError::NoDevice),
        Action::Error(e) if e == "No Spotify device found"
    ));
    assert!(matches!(
        after_refresh(Err("no net".to_string())),
        Action::Error(e) if e == "Refresh failed: no net"
    ));
    assert!(matches!(
        after_refresh(Ok(SpotifyState::default())),
        Action::SpotifyStateUpdated { .. }
    ));
}

#[test]
fn error_texts() {
    assert_eq!(SpotifyError::NoDevice.message(), "No Spotify device found");
    assert_eq!(SpotifyError::NoTrack.message(), "No track");
    assert_eq!(SpotifyError::NoContext.message(), "No track context");
    assert_eq!(SpotifyError::NothingPlaying.message(), "Nothing is currently playing");
    assert_eq!(SpotifyError::QueueEmpty.message(), "Queue is empty");
    assert_eq!(SpotifyError::NothingPlayed.message(), "No recently played tracks");
}

#[test]
fn nothing_is_known_at_first() {
    let state = SpotifyState::default();
    assert!(state.player.device.is_none());
    assert!(state.player.item.is_none());
    assert!(state.player.context.is_none());
    assert!(!state.player.is_playing);
    assert!(!state.player.shuffle_state);
    assert_eq!(state.player.progress_ms, 0);
    assert_eq!(state.player.repeat_state, "");
    assert!(state.queue.is_none());
    assert!(state.history.is_none());
}

#[test]
fn bodies_in_json() {
    assert_eq!(Body::Omitted.json(), None);
    assert_eq!(Body::Empty.json(), None);
    assert_eq!(
        player().play("spotify:track:1", "").unwrap().body.json().unwrap(),
        "{\"uris\":[\"spotify:track:1\"]}"
    );
    assert_eq!(
        player().play("spotify:track:1", "spotify:album:2").unwrap().body.json().unwrap(),
        "{\"context_uri\":\"spotify:album:2\",\"offset\":{\"uri\":\"spotify:track:1\"}}"
    );
}

#[test]
fn texts_are_escaped_in_json() {
    let body = |uri: &str| Body::Uris { uri: uri.to_string() }.json().unwrap();
    assert_eq!(
        body("a\"b\\c/\u{8}\u{9}\u{a}\u{b}\u{c}\u{d}\u{0}\u{1f}\u{7f}ä→"),
        "{\"uris\":[\"a\\\"b\\\\c/\\b\\t\\n\\u000b\\f\\r\\u0000\\u001f\u{7f}ä→\"]}"
    );
    assert_ne!(body("a"), body("a\""));
    assert_ne!(body("\\n"), body("\n"));
}

#[test]
fn bodies_are_valid_json() {
    let text = Body::Within { context_uri: "c\"\n".to_string(), uri: "ü\u{1}".to_string() }
        .json()
        .unwrap();
    let value: serde_json::Value = serde_json::from_str(&text).unwrap();
    assert_eq!(value["context_uri"], "c\"\n");
    assert_eq!(value["offset"]["uri"], "ü\u{1}");
}
