use spotuify::action::Action;
use spotuify::focus::Focus;
use spotuify::keys::{key_event, key_to_action, react, Key, KeyKind, ReaderStep, TerminalEvent};

#[test]
fn keys_of_the_player() {
    let at = |key: Key| key_to_action(Focus::Player, key);
    assert!(matches!(at(Key::Enter), Action::Refresh));
    assert!(matches!(at(Key::Char('e')), Action::Error(e) if e == "Test Error"));
    assert!(matches!(at(Key::Char(' ')), Action::PauseResume));
    assert!(matches!(at(Key::Right), Action::Next));
    assert!(matches!(at(Key::Char('l')), Action::Next));
    assert!(matches!(at(Key::Left), Action::Previous));
    assert!(matches!(at(Key::Char('h')), Action::Previous));
    assert!(matches!(at(Key::Down), Action::VolumeDown));
    assert!(matches!(at(Key::Char('j')), Action::VolumeDown));
    assert!(matches!(at(Key::Up), Action::VolumeUp));
    assert!(matches!(at(Key::Char('k')), Action::VolumeUp));
    assert!(matches!(at(Key::Char('m')), Action::Mute));
    assert!(matches!(at(Key::Char('s')), Action::ToggleShuffle));
    assert!(matches!(at(Key::Char('r')), Action::ToggleRepeat));
    assert!(matches!(at(Key::Home), Action::Render));
    assert!(matches!(at(Key::Char('E')), Action::Render));
    assert!(matches!(at(Key::Other), Action::Render));
}

#[test]
fn keys_of_the_queue() {
    let at = |key: Key| key_to_action(Focus::Queue, key);
    assert!(matches!(at(Key::Enter), Action::PlayQueue));
    assert!(matches!(at(Key::Down), Action::QueueMoveNext));
    assert!(matches!(at(Key::Char('j')), Action::QueueMoveNext));
    assert!(matches!(at(Key::Up), Action::QueueMovePrevious));
    assert!(matches!(at(Key::Char('k')), Action::QueueMovePrevious));
    assert!(matches!(at(Key::Home), Action::QueueFirst));
    assert!(matches!(at(Key::End), Action::QueueLast));
    assert!(matches!(at(Key::Char('m')), Action::Render));
    assert!(matches!(at(Key::Left), Action::Render));
}

#[test]
fn keys_of_the_history() {
    let at = |key: Key| key_to_action(Focus::History, key);
    assert!(matches!(at(Key::Enter), Action::PlayHistory));
    assert!(matches!(at(Key::Left), Action::QueueHistory));
    assert!(matches!(at(Key::Char('h')), Action::QueueHistory));
    assert!(matches!(at(Key::Down), Action::HistoryMoveNext));
    assert!(matches!(at(Key::Char('j')), Action::HistoryMoveNext));
    assert!(matches!(at(Key::Up), Action::HistoryMovePrevious));
    assert!(matches!(at(Key::Char('k')), Action::HistoryMovePrevious));
    assert!(matches!(at(Key::Home), Action::HistoryFirst));
    assert!(matches!(at(Key::End), Action::HistoryLast));
    assert!(matches!(at(Key::Right), Action::Render));
}

#[test]
fn keys_that_mean_the_same_everywhere() {
    for focus in [Focus::Player, Focus::Queue, Focus::History] {
        assert!(matches!(key_to_action(focus, Key::Char('q')), Action::Quit));
        assert!(matches!(key_to_action(focus, Key::Char('c')), Action::Close));
        assert!(matches!(key_to_action(focus, Key::Tab), Action::FocusNext));
        assert!(matches!(key_to_action(focus, Key::BackTab), Action::FocusPrevious));
    }
}

#[test]
fn the_focus_goes_round_both_ways() {
    assert_eq!(Focus::default(), Focus::Player);
    assert_eq!(Focus::Player.next(), Focus::History);
    assert_eq!(Focus::History.next(), Focus::Queue);
    assert_eq!(Focus::Queue.next(), Focus::Player);
    for focus in [Focus::Player, Focus::Queue, Focus::History] {
        assert_eq!(focus.next().prev(), focus);
        assert_eq!(focus.prev().next(), focus);
        assert_eq!(focus.next().next().next(), focus);
    }
}

#[test]
fn the_reader_passes_keys_on() {
    let step = react(TerminalEvent::Press(Key::Enter), Some(Focus::Queue));
    assert!(matches!(step, ReaderStep::Send(Action::PlayQueue)));
    let step = react(TerminalEvent::Ignored, Some(Focus::Queue));
    assert!(matches!(step, ReaderStep::Wait));
    let step = react(TerminalEvent::Ignored, None);
    assert!(matches!(step, ReaderStep::Wait));
}

#[test]
fn the_reader_stops() {
    let step = react(TerminalEvent::Press(Key::Char('q')), None);
    assert!(matches!(step, ReaderStep::Stop));
    let step = react(TerminalEvent::ReadError("gone".to_string()), Some(Focus::Player));
    assert!(matches!(
        step,
        ReaderStep::SendLast(Action::Error(e)) if e == "Terminal event error: gone"
    ));
    let step = react(TerminalEvent::TaskError("panic".to_string()), None);
    assert!(matches!(
        step,
        ReaderStep::SendLast(Action::Error(e)) if e == "Event task error: panic"
    ));
}

#[test]
fn only_presses_count() {
    assert!(matches!(key_event(KeyKind::Press, Key::Enter), TerminalEvent::Press(Key::Enter)));
    assert!(matches!(key_event(KeyKind::Repeat, Key::Enter), TerminalEvent::Ignored));
    assert!(matches!(key_event(KeyKind::Release, Key::Enter), TerminalEvent::Ignored));
}

#[test]
fn the_parts_of_a_step() {
    assert!(matches!(ReaderStep::Wait.parts(), (None, true)));
    assert!(matches!(ReaderStep::Send(Action::Next).parts(), (Some(Action::Next), true)));
    assert!(matches!(ReaderStep::SendLast(Action::Quit).parts(), (Some(Action::Quit), false)));
    assert!(matches!(ReaderStep::Stop.parts(), (None, false)));
}

/// What is passed on for a sequence of events, each with the focus at that time
/// and whether anybody hears of it.
fn read(events: Vec<(TerminalEvent, Option<Focus>, bool)>) -> Vec<String> {
    let mut passed_on: Vec<String> = Vec::new();
    for (event, focus, heard) in events {
        let (action, goes_on) = react(event, focus).parts();
        let delivered = match action {
            Some(action) if heard => {
                passed_on.push(format!("{action:?}"));
                true
            }
            Some(_) => false,
            None => true,
        };
        if !(goes_on && delivered) {
            break;
        }
    }
    passed_on
}

#[test]
fn presses_are_passed_on_up_to_the_first_error() {
    let press = |key: Key| key_event(KeyKind::Press, key);
    let events = vec![
        (press(Key::Enter), Some(Focus::Player), true),
        (key_event(KeyKind::Release, Key::Enter), Some(Focus::Player), true),
        (press(Key::Tab), Some(Focus::Player), true),
        (TerminalEvent::Ignored, None, false),
        (press(Key::Enter), Some(Focus::History), true),
        (TerminalEvent::ReadError("gone".to_string()), Some(Focus::History), true),
        (press(Key::Char('q')), Some(Focus::History), true),
    ];
    assert_eq!(
        read(events),
        vec!["Refresh", "FocusNext", "PlayHistory", "Error(\"Terminal event error: gone\")"]
    );
}

#[test]
fn reading_ends_when_nobody_hears_or_the_focus_is_gone() {
    let press = |key: Key| key_event(KeyKind::Press, key);
    let events = vec![
        (press(Key::Enter), Some(Focus::Queue), true),
        (press(Key::Home), Some(Focus::Queue), false),
        (press(Key::End), Some(Focus::Queue), true),
    ];
    assert_eq!(read(events), vec!["PlayQueue"]);
    let events = vec![
        (press(Key::Enter), None, true),
        (press(Key::End), Some(Focus::Queue), true),
    ];
    assert!(read(events).is_empty());
    let events = vec![(TerminalEvent::TaskError("x".to_string()), Some(Focus::Queue), false)];
    assert!(read(events).is_empty());
}
