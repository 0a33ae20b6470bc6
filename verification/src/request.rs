//! The calls to Spotify's Web API: what is sent, and what a status means.

use crate::error::SpotifyError;
use crate::json::{
    json_string, json_strings_are_unambiguous, json_strings_end_where_they_end, quoted,
};
use crate::model::{Device, Player};
use crate::pairs::{pair, pair_views};
use crate::text::{decimal, decimal_text, number_of, numerals_can_be_read_back};
use vstd::prelude::*;

verus! {

#[derive(Debug, Clone, Copy, PartialEq, Eq, Structural)]
pub enum Method {
    Get,
    Put,
    Post,
}

/// What a request carries besides its query.
#[derive(Debug, Clone)]
pub enum Body {
    /// Nothing, and no word about its length.
    Omitted,
    /// Nothing, with a `Content-Length` of zero.
    Empty,
    /// The JSON object `{"uris": [uri]}`.
    Uris { uri: String },
    /// The JSON object `{"context_uri": context_uri, "offset": {"uri": uri}}`.
    Within { context_uri: String, uri: String },
}

/// A request to the Web API. The access token is added when it is sent.
#[derive(Debug, Clone)]
pub struct ApiRequest {
    pub method: Method,
    pub url: String,
    pub query: Vec<(String, String)>,
    pub body: Body,
}

pub enum BodyView {
    Omitted,
    Empty,
    Uris { uri: Seq<char> },
    Within { context_uri: Seq<char>, uri: Seq<char> },
}

#[verifier::ext_equal]
pub struct RequestView {
    pub method: Method,
    pub url: Seq<char>,
    pub query: Seq<(Seq<char>, Seq<char>)>,
    pub body: BodyView,
}

impl View for Body {
    type V = BodyView;

    open spec fn view(&self) -> BodyView {
        match *self {
            Body::Omitted => BodyView::Omitted,
            Body::Empty => BodyView::Empty,
            Body::Uris { uri } => BodyView::Uris { uri: uri@ },
            Body::Within { context_uri, uri } => BodyView::Within {
                context_uri: context_uri@,
                uri: uri@,
            },
        }
    }
}

impl View for ApiRequest {
    type V = RequestView;

    open spec fn view(&self) -> RequestView {
        RequestView {
            method: self.method,
            url: self.url@,
            query: pair_views(self.query@),
            body: self.body@,
        }
    }
}

/// The JSON text of a body, if it has one.
pub open spec fn body_json(body: BodyView) -> Option<Seq<char>> {
    match body {
        BodyView::Omitted => None,
        BodyView::Empty => None,
        BodyView::Uris { uri } => Some("{\"uris\":["@ + json_string(uri) + "]}"@),
        BodyView::Within { context_uri, uri } => Some(
            "{\"context_uri\":"@ + json_string(context_uri) + ",\"offset\":{\"uri\":"@
                + json_string(uri) + "}}"@,
        ),
    }
}

impl Body {
    /// The JSON text of the body, if it has one.
    pub fn json(&self) -> (text: Option<String>)
        ensures
            match text {
                Some(text) => body_json(self@) == Some(text@),
                None => body_json(self@) is None,
            },
    {
        match self {
            Body::Omitted => None,
            Body::Empty => None,
            Body::Uris { uri } => {
                let mut text = "{\"uris\":[".to_owned();
                text.append(quoted(uri.as_str()).as_str());
                text.append("]}");
                Some(text)
            },
            Body::Within { context_uri, uri } => {
                let mut text = "{\"context_uri\":".to_owned();
                text.append(quoted(context_uri.as_str()).as_str());
                text.append(",\"offset\":{\"uri\":");
                text.append(quoted(uri.as_str()).as_str());
                text.append("}}");
                Some(text)
            },
        }
    }
}

/// A request, or the reason why there is none, by what it holds.
pub open spec fn outcome_view(outcome: Result<ApiRequest, SpotifyError>) -> Result<
    RequestView,
    SpotifyError,
> {
    match outcome {
        Ok(request) => Ok(request@),
        Err(error) => Err(error),
    }
}

/// The request that `request` describes for the identifier of the device, or
/// the error that no device is known.
pub open spec fn on_device(player: Player, request: spec_fn(Seq<char>) -> RequestView) -> Result<
    RequestView,
    SpotifyError,
> {
    match player.device {
        Some(device) => Ok(request(device.id@)),
        None => Err(SpotifyError::NoDevice),
    }
}

/// A command that says nothing but which device it is for.
pub open spec fn bare_command(player: Player, method: Method, url: Seq<char>) -> Result<
    RequestView,
    SpotifyError,
> {
    on_device(
        player,
        |id: Seq<char>|
            RequestView { method, url, query: seq![("device_id"@, id)], body: BodyView::Empty },
    )
}

pub open spec fn resume_request(player: Player) -> Result<RequestView, SpotifyError> {
    bare_command(player, Method::Put, "https://api.spotify.com/v1/me/player/play"@)
}

pub open spec fn pause_request(player: Player) -> Result<RequestView, SpotifyError> {
    bare_command(player, Method::Put, "https://api.spotify.com/v1/me/player/pause"@)
}

pub open spec fn next_request(player: Player) -> Result<RequestView, SpotifyError> {
    bare_command(player, Method::Post, "https://api.spotify.com/v1/me/player/next"@)
}

pub open spec fn previous_request(player: Player) -> Result<RequestView, SpotifyError> {
    bare_command(player, Method::Post, "https://api.spotify.com/v1/me/player/previous"@)
}

pub open spec fn volume_request(player: Player, volume_percent: u8) -> Result<
    RequestView,
    SpotifyError,
> {
    on_device(
        player,
        |id: Seq<char>|
            RequestView {
                method: Method::Put,
                url: "https://api.spotify.com/v1/me/player/volume"@,
                query: seq![
                    ("device_id"@, id),
                    ("volume_percent"@, decimal(volume_percent as int)),
                ],
                body: BodyView::Empty,
            },
    )
}

pub open spec fn queue_request(player: Player, uri: Seq<char>) -> Result<
    RequestView,
    SpotifyError,
> {
    on_device(
        player,
        |id: Seq<char>|
            RequestView {
                method: Method::Post,
                url: "https://api.spotify.com/v1/me/player/queue"@,
                query: seq![("device_id"@, id), ("uri"@, uri)],
                body: BodyView::Omitted,
            },
    )
}

/// Plays a track within its context where there is one, alone otherwise.
pub open spec fn play_request(player: Player, uri: Seq<char>, context_uri: Seq<char>) -> Result<
    RequestView,
    SpotifyError,
> {
    on_device(
        player,
        |id: Seq<char>|
            RequestView {
                method: Method::Put,
                url: "https://api.spotify.com/v1/me/player/play"@,
                query: seq![("device_id"@, id)],
                body: if context_uri.len() == 0 {
                    BodyView::Uris { uri }
                } else {
                    BodyView::Within { context_uri, uri }
                },
            },
    )
}

pub open spec fn shuffle_request(player: Player) -> Result<RequestView, SpotifyError> {
    on_device(
        player,
        |id: Seq<char>|
            RequestView {
                method: Method::Put,
                url: "https://api.spotify.com/v1/me/player/shuffle"@,
                query: seq![
                    (
                        "state"@,
                        if player.shuffle_state {
                            "false"@
                        } else {
                            "true"@
                        },
                    ),
                    ("device_id"@, id),
                ],
                body: BodyView::Omitted,
            },
    )
}

/// The mode after `state` in the cycle track, context, off. A mode that is
/// not in the cycle counts as its first.
pub open spec fn following_repeat_state(state: Seq<char>) -> Seq<char> {
    if state == "context"@ {
        "off"@
    } else if state == "off"@ {
        "track"@
    } else {
        "context"@
    }
}

pub open spec fn repeat_request(player: Player) -> Result<RequestView, SpotifyError> {
    on_device(
        player,
        |id: Seq<char>|
            RequestView {
                method: Method::Put,
                url: "https://api.spotify.com/v1/me/player/repeat"@,
                query: seq![
                    ("state"@, following_repeat_state(player.repeat_state@)),
                    ("device_id"@, id),
                ],
                body: BodyView::Omitted,
            },
    )
}

/// The mode to ask for when the repeat mode is `state`.
pub fn next_repeat_state(state: &String) -> (next: String)
    ensures
        next@ == following_repeat_state(state@),
{
    let states: [&str; 3] = ["track", "context", "off"];
    let mut index: usize = 0;
    if *state == states[1].to_owned() {
        index = 1;
    } else if *state == states[2].to_owned() {
        index = 2;
    }
    states[(index + 1) % 3].to_owned()
}

impl Player {
    /// Sets the volume.
    pub fn volume(&self, volume_percent: u8) -> (request: Result<ApiRequest, SpotifyError>)
        ensures
            outcome_view(request) == volume_request(*self, volume_percent),
    {
        let device: &Device = self.device()?;
        let volume = decimal_text(volume_percent as u64);
        let request = ApiRequest {
            method: Method::Put,
            url: "https://api.spotify.com/v1/me/player/volume".to_owned(),
            query: vec![
                pair("device_id", device.id.as_str()),
                pair("volume_percent", volume.as_str()),
            ],
            body: Body::Empty,
        };
        assert(request@ =~= volume_request(*self, volume_percent)->Ok_0);
        Ok(request)
    }

    /// Puts the track at `uri` at the end of the queue.
    pub fn queue(&self, uri: &str) -> (request: Result<ApiRequest, SpotifyError>)
        ensures
            outcome_view(request) == queue_request(*self, uri@),
    {
        let device: &Device = self.device()?;
        let request = ApiRequest {
            method: Method::Post,
            url: "https://api.spotify.com/v1/me/player/queue".to_owned(),
            query: vec![pair("device_id", device.id.as_str()), pair("uri", uri)],
            body: Body::Omitted,
        };
        assert(request@ =~= queue_request(*self, uri@)->Ok_0);
        Ok(request)
    }

    /// Plays the track at `uri`, within `context_uri` unless that is empty.
    pub fn play(&self, uri: &str, context_uri: &str) -> (request: Result<ApiRequest, SpotifyError>)
        ensures
            outcome_view(request) == play_request(*self, uri@, context_uri@),
    {
        let device: &Device = self.device()?;
        let body = if context_uri.is_empty() {
            Body::Uris { uri: uri.to_owned() }
        } else {
            Body::Within { context_uri: context_uri.to_owned(), uri: uri.to_owned() }
        };
        let request = ApiRequest {
            method: Method::Put,
            url: "https://api.spotify.com/v1/me/player/play".to_owned(),
            query: vec![pair("device_id", device.id.as_str())],
            body,
        };
        assert(request@ =~= play_request(*self, uri@, context_uri@)->Ok_0);
        Ok(request)
    }

    /// Goes on playing.
    pub fn resume(&self) -> (request: Result<ApiRequest, SpotifyError>)
        ensures
            outcome_view(request) == resume_request(*self),
    {
        self.put("https://api.spotify.com/v1/me/player/play")
    }

    /// Stops playing for now.
    pub fn pause(&self) -> (request: Result<ApiRequest, SpotifyError>)
        ensures
            outcome_view(request) == pause_request(*self),
    {
        self.put("https://api.spotify.com/v1/me/player/pause")
    }

    /// Skips to the next track.
    pub fn next(&self) -> (request: Result<ApiRequest, SpotifyError>)
        ensures
            outcome_view(request) == next_request(*self),
    {
        self.post("https://api.spotify.com/v1/me/player/next")
    }

    /// Goes back to the previous track.
    pub fn prev(&self) -> (request: Result<ApiRequest, SpotifyError>)
        ensures
            outcome_view(request) == previous_request(*self),
    {
        self.post("https://api.spotify.com/v1/me/player/previous")
    }

    /// A `PUT` that names the device only.
    pub fn put(&self, url: &str) -> (request: Result<ApiRequest, SpotifyError>)
        ensures
            outcome_view(request) == bare_command(*self, Method::Put, url@),
    {
        let device: &Device = self.device()?;
        let request = ApiRequest {
            method: Method::Put,
            url: url.to_owned(),
            query: vec![pair("device_id", device.id.as_str())],
            body: Body::Empty,
        };
        assert(request@ =~= bare_command(*self, Method::Put, url@)->Ok_0);
        Ok(request)
    }

    /// A `POST` that names the device only.
    pub fn post(&self, url: &str) -> (request: Result<ApiRequest, SpotifyError>)
        ensures
            outcome_view(request) == bare_command(*self, Method::Post, url@),
    {
        let device: &Device = self.device()?;
        let request = ApiRequest {
            method: Method::Post,
            url: url.to_owned(),
            query: vec![pair("device_id", device.id.as_str())],
            body: Body::Empty,
        };
        assert(request@ =~= bare_command(*self, Method::Post, url@)->Ok_0);
        Ok(request)
    }

    /// Turns shuffling on if it is off, and off if it is on.
    pub fn toggle_shuffle(&self) -> (request: Result<ApiRequest, SpotifyError>)
        ensures
            outcome_view(request) == shuffle_request(*self),
    {
        let device: &Device = self.device()?;
        let next_state = if self.shuffle_state {
            "false"
        } else {
            "true"
        };
        let request = ApiRequest {
            method: Method::Put,
            url: "https://api.spotify.com/v1/me/player/shuffle".to_owned(),
            query: vec![pair("state", next_state), pair("device_id", device.id.as_str())],
            body: Body::Omitted,
        };
        assert(request@ =~= shuffle_request(*self)->Ok_0);
        Ok(request)
    }

    /// Moves on to the following repeat mode.
    pub fn toggle_repeat(&self) -> (request: Result<ApiRequest, SpotifyError>)
        ensures
            outcome_view(request) == repeat_request(*self),
    {
        let device: &Device = self.device()?;
        let next_state = next_repeat_state(&self.repeat_state);
        let request = ApiRequest {
            method: Method::Put,
            url: "https://api.spotify.com/v1/me/player/repeat".to_owned(),
            query: vec![
                pair("state", next_state.as_str()),
                pair("device_id", device.id.as_str()),
            ],
            body: Body::Omitted,
        };
        assert(request@ =~= repeat_request(*self)->Ok_0);
        Ok(request)
    }
}

/// The three repeat modes follow one another in a circle, and any other mode
/// leads into it.
pub proof fn repeat_modes_go_round(state: Seq<char>)
    ensures
        ({
            let first = following_repeat_state(state);
            let second = following_repeat_state(first);
            let third = following_repeat_state(second);
            &&& following_repeat_state(third) == first
            &&& first != second && second != third && third != first
            &&& (state == "track"@ || state == "context"@ || state == "off"@) ==> third == state
        }),
{
    reveal_strlit("track");
    reveal_strlit("context");
    reveal_strlit("off");
    assert("track"@.len() == 5 && "context"@.len() == 7 && "off"@.len() == 3);
}

/// What the toggle asks for is the opposite of what is: once the first request
/// has been followed, the second asks for the former state.
pub proof fn shuffle_is_toggled(player: Player)
    requires
        player.device is Some,
    ensures
        shuffle_request(player) is Ok,
        shuffle_request(player)->Ok_0.query[0] == ("state"@, if player.shuffle_state {
            "false"@
        } else {
            "true"@
        }),
        shuffle_request(player) != shuffle_request(
            Player { shuffle_state: !player.shuffle_state, ..player },
        ),
{
    reveal_strlit("true");
    reveal_strlit("false");
    assert("true"@.len() != "false"@.len());
    let toggled = Player { shuffle_state: !player.shuffle_state, ..player };
    assert(shuffle_request(player)->Ok_0.query[0] != shuffle_request(toggled)->Ok_0.query[0]);
}

/// Every command names the device that it is for.
pub proof fn commands_name_the_device(player: Player, volume: u8, uri: Seq<char>, context: Seq<char>)
    requires
        player.device is Some,
    ensures
        ({
            let named = ("device_id"@, player.device->0.id@);
            &&& resume_request(player)->Ok_0.query == seq![named]
            &&& pause_request(player)->Ok_0.query == seq![named]
            &&& next_request(player)->Ok_0.query == seq![named]
            &&& previous_request(player)->Ok_0.query == seq![named]
            &&& play_request(player, uri, context)->Ok_0.query == seq![named]
            &&& queue_request(player, uri)->Ok_0.query[0] == named
            &&& volume_request(player, volume)->Ok_0.query[0] == named
            &&& shuffle_request(player)->Ok_0.query[1] == named
            &&& repeat_request(player)->Ok_0.query[1] == named
        }),
{
}

/// What is sent to play a track alone names that track and no other.
pub proof fn played_alone_is_unambiguous(first: Seq<char>, second: Seq<char>)
    requires
        body_json(BodyView::Uris { uri: first }) == body_json(BodyView::Uris { uri: second }),
    ensures
        first == second,
{
    let begin = "{\"uris\":["@;
    let end = "]}"@;
    let text = begin + json_string(first) + end;
    assert(text == begin + json_string(second) + end);
    assert(json_string(first) =~= text.subrange(begin.len() as int, text.len() - end.len()));
    assert(json_string(second) =~= text.subrange(begin.len() as int, text.len() - end.len()));
    json_strings_are_unambiguous(first, second);
}

/// How every command goes over the wire: by which method, to which address, and with
/// what besides the device.
pub proof fn commands_on_the_wire(
    player: Player,
    volume: u8,
    uri: Seq<char>,
    context: Seq<char>,
)
    requires
        player.device is Some,
    ensures
        ({
            let request = resume_request(player)->Ok_0;
            &&& request.method == Method::Put && request.body is Empty
            &&& request.url == "https://api.spotify.com/v1/me/player/play"@
        }),
        ({
            let request = pause_request(player)->Ok_0;
            &&& request.method == Method::Put && request.body is Empty
            &&& request.url == "https://api.spotify.com/v1/me/player/pause"@
        }),
        ({
            let request = next_request(player)->Ok_0;
            &&& request.method == Method::Post && request.body is Empty
            &&& request.url == "https://api.spotify.com/v1/me/player/next"@
        }),
        ({
            let request = previous_request(player)->Ok_0;
            &&& request.method == Method::Post && request.body is Empty
            &&& request.url == "https://api.spotify.com/v1/me/player/previous"@
        }),
        ({
            let request = volume_request(player, volume)->Ok_0;
            &&& request.method == Method::Put && request.body is Empty
            &&& request.url == "https://api.spotify.com/v1/me/player/volume"@
            &&& request.query.len() == 2
            &&& request.query[1].0 == "volume_percent"@
            &&& number_of(request.query[1].1) == volume
        }),
        ({
            let request = queue_request(player, uri)->Ok_0;
            &&& request.method == Method::Post && request.body is Omitted
            &&& request.url == "https://api.spotify.com/v1/me/player/queue"@
            &&& request.query.len() == 2
            &&& request.query[1] == ("uri"@, uri)
        }),
        ({
            let request = shuffle_request(player)->Ok_0;
            &&& request.method == Method::Put && request.body is Omitted
            &&& request.url == "https://api.spotify.com/v1/me/player/shuffle"@
            &&& request.query.len() == 2
            &&& request.query[0].0 == "state"@
            &&& player.shuffle_state ==> request.query[0].1 == "false"@
            &&& !player.shuffle_state ==> request.query[0].1 == "true"@
        }),
        ({
            let request = repeat_request(player)->Ok_0;
            &&& request.method == Method::Put && request.body is Omitted
            &&& request.url == "https://api.spotify.com/v1/me/player/repeat"@
            &&& request.query.len() == 2
            &&& request.query[0].0 == "state"@
            &&& player.repeat_state@ == "track"@ ==> request.query[0].1 == "context"@
            &&& player.repeat_state@ == "context"@ ==> request.query[0].1 == "off"@
            &&& player.repeat_state@ == "off"@ ==> request.query[0].1 == "track"@
        }),
{
    reveal_strlit("track");
    reveal_strlit("context");
    reveal_strlit("off");
    assert("track"@.len() == 5 && "context"@.len() == 7 && "off"@.len() == 3);
    numerals_can_be_read_back(volume as int);
}

/// Playing a track is resuming with a body: the same call to the same device. The
/// body names the track, and the context unless that is empty.
pub proof fn playing_is_resuming_with_a_body(player: Player, uri: Seq<char>, context: Seq<char>)
    requires
        player.device is Some,
    ensures
        ({
            let play = play_request(player, uri, context);
            &&& play is Ok
            &&& play->Ok_0.method == Method::Put
            &&& play->Ok_0.url == "https://api.spotify.com/v1/me/player/play"@
            &&& play->Ok_0.query == seq![("device_id"@, player.device->0.id@)]
            &&& resume_request(player) == Ok::<RequestView, SpotifyError>(
                RequestView { body: BodyView::Empty, ..play->Ok_0 },
            )
            &&& context.len() == 0 ==> play->Ok_0.body == (BodyView::Uris { uri })
            &&& context.len() > 0 ==> play->Ok_0.body == (BodyView::Within {
                context_uri: context,
                uri,
            })
        }),
{
}

/// Without a device every command is refused for that reason; with one none is.
pub proof fn commands_need_a_device(
    player: Player,
    volume: u8,
    uri: Seq<char>,
    context: Seq<char>,
    outcome: Result<RequestView, SpotifyError>,
)
    requires
        outcome == resume_request(player) || outcome == pause_request(player) || outcome
            == next_request(player) || outcome == previous_request(player) || outcome
            == volume_request(player, volume) || outcome == queue_request(player, uri) || outcome
            == play_request(player, uri, context) || outcome == shuffle_request(player) || outcome
            == repeat_request(player),
    ensures
        outcome is Ok <==> player.device is Some,
        outcome is Err ==> outcome->Err_0 == SpotifyError::NoDevice,
{
}

/// A repeat mode that is none of the three is followed by `context`.
pub proof fn unknown_repeat_modes(state: Seq<char>)
    requires
        state != "context"@,
        state != "off"@,
    ensures
        following_repeat_state(state) == "context"@,
{
}

/// What is sent to play a track within a context names that track and that context
/// and no others.
pub proof fn played_within_is_unambiguous(
    first: Seq<char>,
    first_context: Seq<char>,
    second: Seq<char>,
    second_context: Seq<char>,
)
    requires
        body_json(BodyView::Within { context_uri: first_context, uri: first }) == body_json(
            BodyView::Within { context_uri: second_context, uri: second },
        ),
    ensures
        first == second,
        first_context == second_context,
{
    let begin = "{\"context_uri\":"@;
    let middle = ",\"offset\":{\"uri\":"@;
    let end = "}}"@;
    let after_first = middle + json_string(first) + end;
    let after_second = middle + json_string(second) + end;
    let whole = begin + json_string(first_context) + middle + json_string(first) + end;
    assert(whole == begin + json_string(second_context) + middle + json_string(second) + end);
    assert(whole.skip(begin.len() as int) =~= json_string(first_context) + after_first);
    assert(whole.skip(begin.len() as int) =~= json_string(second_context) + after_second);
    json_strings_end_where_they_end(first_context, second_context, after_first, after_second);
    assert(after_first.skip(middle.len() as int) =~= json_string(first) + end);
    assert(after_second.skip(middle.len() as int) =~= json_string(second) + end);
    json_strings_end_where_they_end(first, second, end, end);
}

/// The JSON of a body, and that only the bodies for playing have one.
pub proof fn bodies_in_json(uri: Seq<char>, context_uri: Seq<char>)
    ensures
        body_json(BodyView::Omitted) is None,
        body_json(BodyView::Empty) is None,
        body_json(BodyView::Uris { uri }) == Some("{\"uris\":["@ + json_string(uri) + "]}"@),
        body_json(BodyView::Within { context_uri, uri }) == Some(
            "{\"context_uri\":"@ + json_string(context_uri) + (",\"offset\":{\"uri\":"@
                + json_string(uri) + "}}"@),
        ),
{
    assert("{\"context_uri\":"@ + json_string(context_uri) + (",\"offset\":{\"uri\":"@ + json_string(
        uri,
    ) + "}}"@) =~= "{\"context_uri\":"@ + json_string(context_uri) + ",\"offset\":{\"uri\":"@
        + json_string(uri) + "}}"@);
}

/// Nothing of a request is left out of its view.
pub proof fn requests_keep_their_parts(request: ApiRequest)
    ensures
        request@.method == request.method,
        request@.url == request.url@,
        request@.query.len() == request.query@.len(),
        forall|i: int|
            0 <= i < request.query@.len() ==> (#[trigger] request@.query[i]).0
                == request.query@[i].0@ && request@.query[i].1 == request.query@[i].1@,
        request.body is Omitted <==> request@.body is Omitted,
        request.body is Empty <==> request@.body is Empty,
        request.body matches Body::Uris { uri } ==> request@.body == (BodyView::Uris { uri: uri@ }),
        request.body matches Body::Within { context_uri, uri } ==> request@.body == (
        BodyView::Within { context_uri: context_uri@, uri: uri@ }),
{
}

/// A bare command goes by the method and to the address that it is given, names the
/// device and carries nothing.
pub proof fn bare_commands(player: Player, method: Method, url: Seq<char>)
    ensures
        player.device matches Some(device) ==> bare_command(player, method, url) == Ok::<
            RequestView,
            SpotifyError,
        >(
            (RequestView {
                method,
                url,
                query: seq![("device_id"@, device.id@)],
                body: BodyView::Empty,
            }),
        ),
        player.device is None ==> bare_command(player, method, url) == Err::<
            RequestView,
            SpotifyError,
        >(SpotifyError::NoDevice),
{
}

} // verus!
