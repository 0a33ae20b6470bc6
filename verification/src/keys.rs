//! What the keys do.

use crate::action::{Action, ActionView};
use crate::focus::Focus;
use crate::text::concatenated;
use vstd::prelude::*;

verus! {

/// The keys that are told apart.
#[derive(Debug, Clone, Copy, PartialEq, Eq, Structural)]
pub enum Key {
    Char(char),
    Enter,
    Left,
    Right,
    Up,
    Down,
    Home,
    End,
    Tab,
    BackTab,
    Other,
}

pub open spec fn player_key(key: Key) -> ActionView {
    match key {
        Key::Enter => ActionView::Refresh,
        Key::Char('e') => ActionView::Error("Test Error"@),
        Key::Char(' ') => ActionView::PauseResume,
        Key::Right | Key::Char('l') => ActionView::Next,
        Key::Left | Key::Char('h') => ActionView::Previous,
        Key::Down | Key::Char('j') => ActionView::VolumeDown,
        Key::Up | Key::Char('k') => ActionView::VolumeUp,
        Key::Char('m') => ActionView::Mute,
        Key::Char('s') => ActionView::ToggleShuffle,
        Key::Char('r') => ActionView::ToggleRepeat,
        _ => ActionView::Render,
    }
}

pub open spec fn queue_key(key: Key) -> ActionView {
    match key {
        Key::Enter => ActionView::PlayQueue,
        Key::Down | Key::Char('j') => ActionView::QueueMoveNext,
        Key::Up | Key::Char('k') => ActionView::QueueMovePrevious,
        Key::Home => ActionView::QueueFirst,
        Key::End => ActionView::QueueLast,
        _ => ActionView::Render,
    }
}

pub open spec fn history_key(key: Key) -> ActionView {
    match key {
        Key::Enter => ActionView::PlayHistory,
        Key::Left | Key::Char('h') => ActionView::QueueHistory,
        Key::Down | Key::Char('j') => ActionView::HistoryMoveNext,
        Key::Up | Key::Char('k') => ActionView::HistoryMovePrevious,
        Key::Home => ActionView::HistoryFirst,
        Key::End => ActionView::HistoryLast,
        _ => ActionView::Render,
    }
}

/// What a key does when the keys go to `focus`.
pub open spec fn key_meaning(focus: Focus, key: Key) -> ActionView {
    match key {
        Key::Char('q') => ActionView::Quit,
        Key::Char('c') => ActionView::Close,
        Key::Tab => ActionView::FocusNext,
        Key::BackTab => ActionView::FocusPrevious,
        _ => match focus {
            Focus::Player => player_key(key),
            Focus::Queue => queue_key(key),
            Focus::History => history_key(key),
        },
    }
}

pub fn player_key_action(key: Key) -> (action: Action)
    ensures
        action@ == player_key(key),
{
    match key {
        Key::Enter => Action::Refresh,
        Key::Char('e') => Action::Error("Test Error".to_owned()),
        Key::Char(' ') => Action::PauseResume,
        Key::Right | Key::Char('l') => Action::Next,
        Key::Left | Key::Char('h') => Action::Previous,
        Key::Down | Key::Char('j') => Action::VolumeDown,
        Key::Up | Key::Char('k') => Action::VolumeUp,
        Key::Char('m') => Action::Mute,
        Key::Char('s') => Action::ToggleShuffle,
        Key::Char('r') => Action::ToggleRepeat,
        _ => Action::Render,
    }
}

pub fn queue_key_action(key: Key) -> (action: Action)
    ensures
        action@ == queue_key(key),
{
    match key {
        Key::Enter => Action::PlayQueue,
        Key::Down | Key::Char('j') => Action::QueueMoveNext,
        Key::Up | Key::Char('k') => Action::QueueMovePrevious,
        Key::Home => Action::QueueFirst,
        Key::End => Action::QueueLast,
        _ => Action::Render,
    }
}

pub fn history_key_action(key: Key) -> (action: Action)
    ensures
        action@ == history_key(key),
{
    match key {
        Key::Enter => Action::PlayHistory,
        Key::Left | Key::Char('h') => Action::QueueHistory,
        Key::Down | Key::Char('j') => Action::HistoryMoveNext,
        Key::Up | Key::Char('k') => Action::HistoryMovePrevious,
        Key::Home => Action::HistoryFirst,
        Key::End => Action::HistoryLast,
        _ => Action::Render,
    }
}

/// What a key does when the keys go to `focus`.
pub fn key_to_action(focus: Focus, key: Key) -> (action: Action)
    ensures
        action@ == key_meaning(focus, key),
{
    match key {
        Key::Char('q') => {
            return Action::Quit;
        },
        Key::Char('c') => {
            return Action::Close;
        },
        Key::Tab => {
            return Action::FocusNext;
        },
        Key::BackTab => {
            return Action::FocusPrevious;
        },
        _ => {},
    }
    match focus {
        Focus::Player => player_key_action(key),
        Focus::Queue => queue_key_action(key),
        Focus::History => history_key_action(key),
    }
}

/// What happened to a key.
#[derive(Debug, Clone, Copy, PartialEq, Eq, Structural)]
pub enum KeyKind {
    Press,
    Repeat,
    Release,
}

/// What came of waiting for the terminal.
#[derive(Debug, Clone)]
pub enum TerminalEvent {
    /// A key was pressed.
    Press(Key),
    /// A key is held or was let go, or something else happened.
    Ignored,
    /// The terminal could not be read.
    ReadError(String),
    /// The waiting itself broke off.
    TaskError(String),
}

/// What the terminal tells of a key.
pub open spec fn told_of_key(kind: KeyKind, key: Key) -> TerminalEvent {
    if kind is Press {
        TerminalEvent::Press(key)
    } else {
        TerminalEvent::Ignored
    }
}

/// Only the press of a key counts.
pub fn key_event(kind: KeyKind, key: Key) -> (event: TerminalEvent)
    ensures
        event == told_of_key(kind, key),
        event == if kind is Press {
            TerminalEvent::Press(key)
        } else {
            TerminalEvent::Ignored
        },
{
    match kind {
        KeyKind::Press => TerminalEvent::Press(key),
        KeyKind::Repeat | KeyKind::Release => TerminalEvent::Ignored,
    }
}

/// What the reader of the terminal does next.
#[derive(Debug, Clone)]
pub enum ReaderStep {
    /// Wait for the next event.
    Wait,
    /// Pass the action on and wait for the next event.
    Send(Action),
    /// Pass the action on and stop.
    SendLast(Action),
    /// Stop.
    Stop,
}

pub enum ReaderStepView {
    Wait,
    Send(ActionView),
    SendLast(ActionView),
    Stop,
}

impl View for ReaderStep {
    type V = ReaderStepView;

    open spec fn view(&self) -> ReaderStepView {
        match *self {
            ReaderStep::Wait => ReaderStepView::Wait,
            ReaderStep::Send(action) => ReaderStepView::Send(action@),
            ReaderStep::SendLast(action) => ReaderStepView::SendLast(action@),
            ReaderStep::Stop => ReaderStepView::Stop,
        }
    }
}

/// What the reader of the terminal does about an event. A key needs to know
/// the focus; without it the reader stops.
pub open spec fn reader_reaction(event: TerminalEvent, focus: Option<Focus>) -> ReaderStepView {
    match event {
        TerminalEvent::Press(key) => match focus {
            Some(focus) => ReaderStepView::Send(key_meaning(focus, key)),
            None => ReaderStepView::Stop,
        },
        TerminalEvent::Ignored => ReaderStepView::Wait,
        TerminalEvent::ReadError(error) => ReaderStepView::SendLast(
            ActionView::Error("Terminal event error: "@ + error@),
        ),
        TerminalEvent::TaskError(error) => ReaderStepView::SendLast(
            ActionView::Error("Event task error: "@ + error@),
        ),
    }
}

/// What the reader of the terminal does about an event. The focus is missing
/// where it can no longer be read.
pub fn react(event: TerminalEvent, focus: Option<Focus>) -> (step: ReaderStep)
    ensures
        step@ == reader_reaction(event, focus),
{
    match event {
        TerminalEvent::Press(key) => match focus {
            Some(focus) => ReaderStep::Send(key_to_action(focus, key)),
            None => ReaderStep::Stop,
        },
        TerminalEvent::Ignored => ReaderStep::Wait,
        TerminalEvent::ReadError(error) => ReaderStep::SendLast(
            Action::Error(concatenated("Terminal event error: ", error.as_str())),
        ),
        TerminalEvent::TaskError(error) => ReaderStep::SendLast(
            Action::Error(concatenated("Event task error: ", error.as_str())),
        ),
    }
}

/// The action that a step passes on, if any.
pub open spec fn step_action(step: ReaderStepView) -> Option<ActionView> {
    match step {
        ReaderStepView::Wait => None,
        ReaderStepView::Send(action) => Some(action),
        ReaderStepView::SendLast(action) => Some(action),
        ReaderStepView::Stop => None,
    }
}

/// Whether the reader waits for another event once the step is done.
pub open spec fn step_goes_on(step: ReaderStepView) -> bool {
    step is Wait || step is Send
}

impl ReaderStep {
    /// The action to pass on, if any, and whether the reader goes on after that.
    /// It stops in any case when nobody takes the action.
    pub fn parts(self) -> (parts: (Option<Action>, bool))
        ensures
            match parts.0 {
                Some(action) => step_action(self@) == Some(action@),
                None => step_action(self@) is None,
            },
            parts.1 == step_goes_on(self@),
    {
        match self {
            ReaderStep::Wait => (None, true),
            ReaderStep::Send(action) => (Some(action), true),
            ReaderStep::SendLast(action) => (Some(action), false),
            ReaderStep::Stop => (None, false),
        }
    }
}

/// An event as the reader meets it: the focus at that time, and whether there is
/// still somebody to pass an action on to.
pub struct Met {
    pub event: TerminalEvent,
    pub focus: Option<Focus>,
    pub heard: bool,
}

/// What the reader has passed on, and whether it has stopped.
#[verifier::ext_equal]
pub struct Reading {
    pub actions: Seq<ActionView>,
    pub stopped: bool,
}

/// The reader after one more event.
pub open spec fn reading_step(reading: Reading, met: Met) -> Reading {
    let step = reader_reaction(met.event, met.focus);
    if reading.stopped {
        reading
    } else {
        match step_action(step) {
            Some(action) => Reading {
                actions: if met.heard {
                    reading.actions.push(action)
                } else {
                    reading.actions
                },
                stopped: !met.heard || !step_goes_on(step),
            },
            None => Reading { stopped: !step_goes_on(step), ..reading },
        }
    }
}

/// The reader after a number of events.
pub open spec fn read_all(events: Seq<Met>) -> Reading
    decreases events.len(),
{
    if events.len() == 0 {
        Reading { actions: Seq::empty(), stopped: false }
    } else {
        reading_step(read_all(events.drop_last()), events.last())
    }
}

/// The terminal could not be read.
pub open spec fn is_error(met: Met) -> bool {
    met.event is ReadError || met.event is TaskError
}

/// The event ends the reading: an error, a key without a focus, or a key that
/// nobody hears of.
pub open spec fn is_end(met: Met) -> bool {
    is_error(met) || (met.event is Press && (met.focus is None || !met.heard))
}

/// The meanings of the keys that were pressed, in their order.
pub open spec fn pressed(events: Seq<Met>) -> Seq<ActionView>
    decreases events.len(),
{
    if events.len() == 0 {
        Seq::empty()
    } else {
        let before = pressed(events.drop_last());
        match (events.last().event, events.last().focus) {
            (TerminalEvent::Press(key), Some(focus)) => before.push(key_meaning(focus, key)),
            _ => before,
        }
    }
}

/// The text that an error of the terminal is reported with.
pub open spec fn error_text(met: Met) -> Seq<char> {
    match met.event {
        TerminalEvent::ReadError(error) => "Terminal event error: "@ + error@,
        TerminalEvent::TaskError(error) => "Event task error: "@ + error@,
        _ => Seq::empty(),
    }
}

/// As long as nothing ends the reading, every press of a key is passed on as what
/// it means with the focus at that time, in order, and nothing else is.
pub proof fn every_press_is_passed_on(events: Seq<Met>)
    requires
        forall|i: int| 0 <= i < events.len() ==> !is_end(#[trigger] events[i]),
    ensures
        read_all(events) == (Reading { actions: pressed(events), stopped: false }),
    decreases events.len(),
{
    if events.len() > 0 {
        let before = events.drop_last();
        assert forall|i: int| 0 <= i < before.len() implies !is_end(#[trigger] before[i]) by {
            assert(before[i] == events[i]);
        }
        every_press_is_passed_on(before);
        assert(!is_end(events[events.len() - 1]));
    }
}

/// The first event that ends the reading is the last that matters. Where it is an
/// error, the error is the last that is passed on, if anybody hears of it; where it
/// is a key, nothing more is.
pub proof fn reading_ends_at_the_first_end(events: Seq<Met>, k: int)
    requires
        0 <= k < events.len(),
        forall|i: int| 0 <= i < k ==> !is_end(#[trigger] events[i]),
        is_end(events[k]),
    ensures
        read_all(events) == (Reading {
            actions: if is_error(events[k]) && events[k].heard {
                pressed(events.take(k)).push(ActionView::Error(error_text(events[k])))
            } else {
                pressed(events.take(k))
            },
            stopped: true,
        }),
    decreases events.len(),
{
    let before = events.drop_last();
    if k == events.len() - 1 {
        assert(before =~= events.take(k));
        assert forall|i: int| 0 <= i < before.len() implies !is_end(#[trigger] before[i]) by {
            assert(before[i] == events[i]);
        }
        every_press_is_passed_on(before);
    } else {
        assert(before.take(k) =~= events.take(k));
        assert(before[k] == events[k]);
        assert forall|i: int| 0 <= i < k implies !is_end(#[trigger] before[i]) by {
            assert(before[i] == events[i]);
        }
        reading_ends_at_the_first_end(before, k);
    }
}

/// Whatever the focus, `q` quits, `c` closes an error, and the tab keys move
/// the focus; no other key does any of these.
pub proof fn global_keys(focus: Focus, key: Key)
    ensures
        key_meaning(focus, key) is Quit <==> key == Key::Char('q'),
        key_meaning(focus, key) is Close <==> key == Key::Char('c'),
        key_meaning(focus, key) is FocusNext <==> key == Key::Tab,
        key_meaning(focus, key) is FocusPrevious <==> key == Key::BackTab,
{
}

/// The letters `h`, `j`, `k` and `l` do what the arrow keys do.
pub proof fn letters_are_arrows(focus: Focus)
    ensures
        key_meaning(focus, Key::Char('h')) == key_meaning(focus, Key::Left),
        key_meaning(focus, Key::Char('j')) == key_meaning(focus, Key::Down),
        key_meaning(focus, Key::Char('k')) == key_meaning(focus, Key::Up),
        key_meaning(focus, Key::Char('l')) == key_meaning(focus, Key::Right),
{
}

/// The keys of one list never touch the other.
pub proof fn lists_are_separate(key: Key)
    ensures
        !(key_meaning(Focus::Queue, key) is HistoryMoveNext),
        !(key_meaning(Focus::Queue, key) is HistoryMovePrevious),
        !(key_meaning(Focus::Queue, key) is HistoryFirst),
        !(key_meaning(Focus::Queue, key) is HistoryLast),
        !(key_meaning(Focus::History, key) is QueueMoveNext),
        !(key_meaning(Focus::History, key) is QueueMovePrevious),
        !(key_meaning(Focus::History, key) is QueueFirst),
        !(key_meaning(Focus::History, key) is QueueLast),
{
}

/// What the keys do when they go to the player: each of these keys and no other.
pub proof fn keys_of_the_player(key: Key)
    ensures
        ({
            let action = key_meaning(Focus::Player, key);
            &&& action is Refresh <==> key == Key::Enter
            &&& action is PauseResume <==> key == Key::Char(' ')
            &&& action is Next <==> key == Key::Right || key == Key::Char('l')
            &&& action is Previous <==> key == Key::Left || key == Key::Char('h')
            &&& action is VolumeUp <==> key == Key::Up || key == Key::Char('k')
            &&& action is VolumeDown <==> key == Key::Down || key == Key::Char('j')
            &&& action is Mute <==> key == Key::Char('m')
            &&& action is ToggleShuffle <==> key == Key::Char('s')
            &&& action is ToggleRepeat <==> key == Key::Char('r')
            &&& action is Error <==> key == Key::Char('e')
            &&& action is Error ==> action == ActionView::Error("Test Error"@)
            &&& action is Quit || action is Close || action is FocusNext || action is FocusPrevious
                || action is Refresh || action is PauseResume || action is Next || action is Previous
                || action is VolumeUp || action is VolumeDown || action is Mute
                || action is ToggleShuffle || action is ToggleRepeat || action is Error
                || action is Render
        }),
{
}

/// What the keys do when they go to the queue: each of these keys and no other.
pub proof fn keys_of_the_queue(key: Key)
    ensures
        ({
            let action = key_meaning(Focus::Queue, key);
            &&& action is PlayQueue <==> key == Key::Enter
            &&& action is QueueMoveNext <==> key == Key::Down || key == Key::Char('j')
            &&& action is QueueMovePrevious <==> key == Key::Up || key == Key::Char('k')
            &&& action is QueueFirst <==> key == Key::Home
            &&& action is QueueLast <==> key == Key::End
            &&& action is Quit || action is Close || action is FocusNext || action is FocusPrevious
                || action is PlayQueue || action is QueueMoveNext || action is QueueMovePrevious
                || action is QueueFirst || action is QueueLast || action is Render
        }),
{
}

/// What the keys do when they go to the history: each of these keys and no other.
pub proof fn keys_of_the_history(key: Key)
    ensures
        ({
            let action = key_meaning(Focus::History, key);
            &&& action is PlayHistory <==> key == Key::Enter
            &&& action is QueueHistory <==> key == Key::Left || key == Key::Char('h')
            &&& action is HistoryMoveNext <==> key == Key::Down || key == Key::Char('j')
            &&& action is HistoryMovePrevious <==> key == Key::Up || key == Key::Char('k')
            &&& action is HistoryFirst <==> key == Key::Home
            &&& action is HistoryLast <==> key == Key::End
            &&& action is Quit || action is Close || action is FocusNext || action is FocusPrevious
                || action is PlayHistory || action is QueueHistory || action is HistoryMoveNext
                || action is HistoryMovePrevious || action is HistoryFirst || action is HistoryLast
                || action is Render
        }),
{
}

/// A single event: a press with a focus passes on what the key means and the reading
/// goes on; anything else that is no error passes on nothing.
pub proof fn reactions(event: TerminalEvent, focus: Option<Focus>)
    ensures
        event matches TerminalEvent::Press(key) ==> match focus {
            Some(focus) => reader_reaction(event, Some(focus)) == ReaderStepView::Send(
                key_meaning(focus, key),
            ),
            None => reader_reaction(event, None) == ReaderStepView::Stop,
        },
        event is Ignored ==> reader_reaction(event, focus) == ReaderStepView::Wait,
        event matches TerminalEvent::ReadError(error) ==> reader_reaction(event, focus)
            == ReaderStepView::SendLast(ActionView::Error("Terminal event error: "@ + error@)),
        event matches TerminalEvent::TaskError(error) ==> reader_reaction(event, focus)
            == ReaderStepView::SendLast(ActionView::Error("Event task error: "@ + error@)),
{
}

/// A key that is pressed does what it means; one that is held or let go does nothing.
pub proof fn only_presses_do_something(kind: KeyKind, key: Key, focus: Focus)
    ensures
        kind is Press ==> reader_reaction(told_of_key(kind, key), Some(focus))
            == ReaderStepView::Send(key_meaning(focus, key)),
        kind is Repeat || kind is Release ==> reader_reaction(told_of_key(kind, key), Some(focus))
            == ReaderStepView::Wait,
{
}

/// Nothing of a step is left out of its view; what it passes on and whether the reading
/// goes on can be told from it.
pub proof fn steps_of_the_reader(step: ReaderStep)
    ensures
        step is Wait ==> step_action(step@) is None && step_goes_on(step@),
        step is Stop ==> step_action(step@) is None && !step_goes_on(step@),
        step matches ReaderStep::Send(action) ==> step@ == ReaderStepView::Send(action@)
            && step_action(step@) == Some(action@) && step_goes_on(step@),
        step matches ReaderStep::SendLast(action) ==> step@ == ReaderStepView::SendLast(action@)
            && step_action(step@) == Some(action@) && !step_goes_on(step@),
{
}

} // verus!
