//! Asking Spotify for its state, one question after the other.

use crate::error::SpotifyError;
use crate::model::{History, Player, Queue, SpotifyState};
use crate::request::{ApiRequest, Body, BodyView, Method, RequestView};
use vstd::prelude::*;

verus! {

/// What can be asked for.
#[derive(Debug, Clone, Copy, PartialEq, Eq, Structural)]
pub enum Endpoint {
    Player,
    Queue,
    History,
}

impl Endpoint {
    pub open spec fn address(self) -> Seq<char> {
        match self {
            Endpoint::Player => "https://api.spotify.com/v1/me/player"@,
            Endpoint::Queue => "https://api.spotify.com/v1/me/player/queue"@,
            Endpoint::History => "https://api.spotify.com/v1/me/player/recently-played"@,
        }
    }

    /// What an answer without content stands for.
    pub open spec fn absence(self) -> SpotifyError {
        match self {
            Endpoint::Player => SpotifyError::NothingPlaying,
            Endpoint::Queue => SpotifyError::QueueEmpty,
            Endpoint::History => SpotifyError::NothingPlayed,
        }
    }

    /// What the status of an answer says: 204 that there is nothing.
    pub open spec fn verdict(self, status: u16) -> Result<(), SpotifyError> {
        if status == 204 {
            Err(self.absence())
        } else {
            Ok(())
        }
    }

    /// The question.
    pub fn request(&self) -> (request: ApiRequest)
        ensures
            request@ == (RequestView {
                method: Method::Get,
                url: self.address(),
                query: Seq::empty(),
                body: BodyView::Omitted,
            }),
    {
        let url = match self {
            Endpoint::Player => "https://api.spotify.com/v1/me/player",
            Endpoint::Queue => "https://api.spotify.com/v1/me/player/queue",
            Endpoint::History => "https://api.spotify.com/v1/me/player/recently-played",
        };
        let request = ApiRequest {
            method: Method::Get,
            url: url.to_owned(),
            query: Vec::new(),
            body: Body::Omitted,
        };
        assert(request@.query =~= Seq::empty());
        request
    }

    /// Looks at the status of an answer before its content is read: 204 says
    /// that there is none.
    pub fn accept(&self, status: u16) -> (accepted: Result<(), SpotifyError>)
        ensures
            accepted == self.verdict(status),
            accepted == if status == 204 {
                Err::<(), SpotifyError>(self.absence())
            } else {
                Ok::<(), SpotifyError>(())
            },
    {
        if status == 204 {
            match self {
                Endpoint::Player => Err(SpotifyError::NothingPlaying),
                Endpoint::Queue => Err(SpotifyError::QueueEmpty),
                Endpoint::History => Err(SpotifyError::NothingPlayed),
            }
        } else {
            Ok(())
        }
    }
}

/// How far the fetching of the state has come.
#[derive(Debug, Clone)]
pub enum Fetch {
    /// The player is to be asked for.
    Player,
    /// The player has answered; the queue is to be asked for.
    Queue { player: Player },
    /// Everything has been answered.
    Done { state: SpotifyState },
    /// A question got no answer.
    Failed { error: String },
}

/// What came back for a question: the answer, or the text of the error.
#[derive(Debug, Clone)]
pub enum Reply {
    Player { player: Player },
    Queue { queue: Queue },
    History { history: History },
    Error { error: String },
}

/// The step that follows `fetch` when `reply` has come. The first error ends
/// the fetching; an answer that was not asked for changes nothing. The history
/// is not asked for.
pub open spec fn fetch_step(fetch: Fetch, reply: Reply) -> Fetch {
    match (fetch, reply) {
        (Fetch::Player, Reply::Player { player }) => Fetch::Queue { player },
        (Fetch::Queue { player }, Reply::Queue { queue }) => Fetch::Done {
            state: SpotifyState { player, queue: Some(queue), history: None },
        },
        (Fetch::Player, Reply::Error { error }) => Fetch::Failed { error },
        (Fetch::Queue { player }, Reply::Error { error }) => Fetch::Failed { error },
        (fetch, reply) => fetch,
    }
}

/// The question that a step asks.
pub open spec fn asked_by(fetch: Fetch) -> Option<Endpoint> {
    match fetch {
        Fetch::Player => Some(Endpoint::Player),
        Fetch::Queue { player } => Some(Endpoint::Queue),
        Fetch::Done { state } => None,
        Fetch::Failed { error } => None,
    }
}

impl Fetch {
    /// The first step.
    pub fn start() -> (fetch: Fetch)
        ensures
            fetch == Fetch::Player,
    {
        Fetch::Player
    }

    /// The question to ask now, if there is one.
    pub fn question(&self) -> (endpoint: Option<Endpoint>)
        ensures
            endpoint == asked_by(*self),
            endpoint == match *self {
                Fetch::Player => Some(Endpoint::Player),
                Fetch::Queue { player } => Some(Endpoint::Queue),
                Fetch::Done { state } => None,
                Fetch::Failed { error } => None,
            },
    {
        match self {
            Fetch::Player => Some(Endpoint::Player),
            Fetch::Queue { .. } => Some(Endpoint::Queue),
            Fetch::Done { .. } => None,
            Fetch::Failed { .. } => None,
        }
    }

    /// Takes in what came back.
    pub fn step(self, reply: Reply) -> (next: Fetch)
        ensures
            next == fetch_step(self, reply),
    {
        match (self, reply) {
            (Fetch::Player, Reply::Player { player }) => Fetch::Queue { player },
            (Fetch::Queue { player }, Reply::Queue { queue }) => Fetch::Done {
                state: SpotifyState { player, queue: Some(queue), history: None },
            },
            (Fetch::Player, Reply::Error { error }) => Fetch::Failed { error },
            (Fetch::Queue { .. }, Reply::Error { error }) => Fetch::Failed { error },
            (fetch, _) => fetch,
        }
    }
}

/// Two good answers make up the state: the player and the queue as they came,
/// and no history.
pub proof fn fetch_collects_answers(player: Player, queue: Queue)
    ensures
        fetch_step(
            fetch_step(Fetch::Player, Reply::Player { player }),
            Reply::Queue { queue },
        ) == (Fetch::Done { state: SpotifyState { player, queue: Some(queue), history: None } }),
{
}

/// The first error ends the fetching, and it is the error that is reported.
pub proof fn first_error_ends_the_fetch(player: Player, error: String)
    ensures
        fetch_step(Fetch::Player, Reply::Error { error }) == (Fetch::Failed { error }),
        fetch_step(Fetch::Queue { player }, Reply::Error { error }) == (Fetch::Failed { error }),
{
}

/// Once it is done or has failed, the fetching asks for nothing more and
/// nothing changes it.
pub proof fn fetch_ends(fetch: Fetch, reply: Reply)
    requires
        fetch is Done || fetch is Failed,
    ensures
        fetch_step(fetch, reply) == fetch,
{
}

/// An answer that was not asked for changes nothing.
pub proof fn unasked_answers_change_nothing(player: Player, reply: Reply)
    ensures
        !(reply is Player) && !(reply is Error) ==> fetch_step(Fetch::Player, reply)
            == Fetch::Player,
        !(reply is Queue) && !(reply is Error) ==> fetch_step(Fetch::Queue { player }, reply)
            == (Fetch::Queue { player }),
{
}

/// Each answer is kept as it came, whatever it holds.
pub proof fn answers_are_kept(fetch: Fetch, reply: Reply)
    ensures
        fetch is Player && reply is Player ==> fetch_step(fetch, reply) is Queue && fetch_step(
            fetch,
            reply,
        )->Queue_player == reply->player,
        fetch is Queue && reply is Queue ==> {
            let done = fetch_step(fetch, reply);
            &&& done is Done
            &&& done->state.player == fetch->Queue_player
            &&& done->state.queue == Some(reply->queue)
            &&& done->state.history is None
        },
        (fetch is Player || fetch is Queue) && reply is Error ==> fetch_step(fetch, reply) is Failed
            && fetch_step(fetch, reply)->error == reply->error,
{
}

/// An answer is turned away only for having no content, and then with the words that
/// belong to the question.
pub proof fn only_missing_content_is_turned_away(endpoint: Endpoint, status: u16)
    ensures
        endpoint.verdict(status) is Err <==> status == 204,
        status == 204 ==> match endpoint {
            Endpoint::Player => endpoint.verdict(status)->Err_0 == SpotifyError::NothingPlaying,
            Endpoint::Queue => endpoint.verdict(status)->Err_0 == SpotifyError::QueueEmpty,
            Endpoint::History => endpoint.verdict(status)->Err_0 == SpotifyError::NothingPlayed,
        },
{
}

/// Whatever the answers hold, the player is asked for first, then the queue, then
/// nothing more; nor is anything after an error.
pub proof fn questions_come_in_order(player: Player, queue: Queue, error: String)
    ensures
        asked_by(Fetch::Player) == Some(Endpoint::Player),
        asked_by(fetch_step(Fetch::Player, Reply::Player { player })) == Some(Endpoint::Queue),
        asked_by(
            fetch_step(fetch_step(Fetch::Player, Reply::Player { player }), Reply::Queue { queue }),
        ) is None,
        asked_by(fetch_step(Fetch::Player, Reply::Error { error })) is None,
        asked_by(fetch_step(Fetch::Queue { player }, Reply::Error { error })) is None,
{
}

} // verus!
