use ratatui::buffer::Buffer;
use ratatui::layout::{Constraint, Rect};
use ratatui::widgets::{Block, Row, StatefulWidget, Table, TableState};
use spotuify::action::{Action, Effect};
use spotuify::app::App;
use spotuify::clock::Moment;
use spotuify::focus::Focus;
use spotuify::layout::{player_areas, screen, tabs_area, Area, Room};
use spotuify::model::{Artist, Device, History, PlayedTrack, Queue, Track};
use spotuify::panel::{
    joined_artists, panel, render_navbar, width_of_tabs, Gauge, PlayerText, TablePanel, Tint,
};
use spotuify::picture::selection_after_drawing;
use spotuify::popup::box_height;
use spotuify::selection::Selection;

fn area(x: u16, y: u16, width: u16, height: u16) -> Area {
    Area { x, y, width, height }
}

fn track(name: &str, duration_ms: u32) -> Track {
    Track {
        id: String::new(),
        name: name.to_string(),
        uri: String::new(),
        duration_ms,
        artists: vec![
            Artist { id: String::new(), name: "Ann".to_string() },
            Artist { id: String::new(), name: "Bob".to_string() },
        ],
    }
}

fn app() -> App {
    let mut app = App::new();
    app.state.player.item = Some(track("Song", 200_000));
    app.state.player.progress_ms = 50_000;
    app.state.player.device = Some(Device {
        id: "d".to_string(),
        name: "D".to_string(),
        volume_percent: 65,
        is_active: true,
    });
    app
}

fn rows(panel: &TablePanel) -> Vec<(String, String, String)> {
    panel
        .rows
        .iter()
        .map(|row| (row.number.clone(), row.name.clone(), row.time.clone()))
        .collect()
}

fn row(number: &str, name: &str, time: &str) -> (String, String, String) {
    (number.to_string(), name.to_string(), time.to_string())
}

fn within(part: Area, whole: Area) -> bool {
    part.x >= whole.x
        && part.x as u32 + part.width as u32 <= whole.x as u32 + whole.width as u32
        && part.y >= whole.y
        && part.y as u32 + part.height as u32 <= whole.y as u32 + whole.height as u32
}

#[test]
fn a_common_terminal() {
    let screen = screen(area(0, 0, 80, 24));
    assert_eq!(screen.queue, area(1, 1, 16, 15));
    assert_eq!(screen.navbar, area(17, 1, 62, 3));
    assert_eq!(screen.history, area(17, 4, 62, 12));
    assert_eq!(screen.player, area(1, 16, 78, 5));
    assert_eq!(screen.instructions, area(1, 21, 78, 2));
    assert_eq!(screen.errors, area(32, 0, 48, 24));
}

#[test]
fn terminals_that_are_high_enough() {
    for width in 2..130u16 {
        let height: u16 = 17 + width % 40;
        let whole = area(width % 3, width % 5, width, height);
        let screen = screen(whole);
        let queue_width = ((width - 2) * 20 + 50) / 100;
        let left = (width * 40 + 50) / 100;
        let (x, y) = (whole.x + 1, whole.y + 1);
        assert_eq!(screen.queue, area(x, y, queue_width, height - 9));
        assert_eq!(screen.navbar, area(x + queue_width, y, width - 2 - queue_width, 3));
        assert_eq!(
            screen.history,
            area(x + queue_width, y + 3, width - 2 - queue_width, height - 12)
        );
        assert_eq!(screen.player, area(x, y + height - 9, width - 2, 5));
        assert_eq!(screen.instructions, area(x, y + height - 4, width - 2, 2));
        assert_eq!(screen.errors, area(whole.x + left, whole.y, width - left, height));
    }
}

#[test]
fn the_largest_terminal() {
    let screen = screen(area(0, 0, 65535, 65535));
    assert_eq!(screen.player, area(1, 65527, 65533, 5));
    assert_eq!(screen.instructions, area(1, 65532, 65533, 2));
    assert_eq!(screen.queue, area(1, 1, 13107, 65526));
    assert_eq!(screen.errors, area(26214, 0, 39321, 65535));
}

#[test]
fn small_terminals() {
    for width in 0..12u16 {
        for height in 0..18u16 {
            let whole = area(3, 2, width, height);
            let screen = screen(whole);
            let inner = if width < 2 || height < 2 {
                area(0, 0, 0, 0)
            } else {
                area(4, 3, width - 2, height - 2)
            };
            let upper = match inner.height {
                12.. => inner.height - 7,
                5.. => 5,
                rows => rows,
            };
            let bar = match upper {
                8.. => 3,
                5.. => upper - 5,
                _ => 0,
            };
            let queue_width = (inner.width * 20 + 50) / 100;
            let (x, w) = (inner.x + queue_width, inner.width - queue_width);
            assert_eq!(screen.queue, area(inner.x, inner.y, queue_width, upper));
            assert_eq!(screen.navbar, area(x, inner.y, w, bar));
            assert_eq!(screen.history, area(x, inner.y + bar, w, upper - bar));
            let rest = inner.height - upper;
            let player = [0, 1, 1, 2, 2, 3, 4, 5, 5, 5][rest as usize];
            let y = inner.y + upper;
            assert_eq!(screen.player, area(inner.x, y, inner.width, player));
            assert_eq!(
                screen.instructions,
                area(inner.x, y + player, inner.width, rest - player)
            );
            assert!(within(screen.errors, whole));
        }
    }
}

#[test]
fn player_and_instructions_share_too_few_rows() {
    for y in [0, 1, 2, 77, 1_000, 9_999, 32_767, 32_768, 65_000, 65_521] {
        for (height, player, instructions) in
            [(7, 0, 0), (8, 1, 0), (9, 1, 1), (10, 2, 1), (11, 2, 2), (12, 3, 2), (13, 4, 2), (14, 5, 2)]
        {
            let screen = screen(area(0, y, 40, height));
            assert_eq!(screen.player, area(1, y + 6, 38, player));
            assert_eq!(screen.instructions, area(1, y + 6 + player, 38, instructions));
        }
    }
}

#[test]
fn the_bar_gives_way_to_the_history() {
    for (height, bar, history) in [(17, 3, 5), (16, 2, 5), (15, 1, 5), (14, 0, 5), (8, 0, 5), (5, 0, 3)] {
        let screen = screen(area(0, 0, 80, height));
        assert_eq!(screen.navbar.height, bar);
        assert_eq!(screen.history.height, history);
    }
}

#[test]
fn the_player_shows_text_and_gauge() {
    assert_eq!(
        player_areas(area(1, 16, 78, 5)),
        (area(2, 17, 76, 2), area(2, 19, 76, 1))
    );
    assert_eq!(player_areas(area(0, 0, 10, 4)), (area(1, 1, 8, 1), area(1, 2, 8, 1)));
    assert_eq!(player_areas(area(0, 0, 10, 3)), (area(1, 1, 8, 1), area(1, 2, 8, 0)));
    assert_eq!(player_areas(area(0, 0, 10, 2)), (area(1, 1, 8, 0), area(1, 1, 8, 0)));
    assert_eq!(player_areas(area(4, 7, 0, 0)), (area(4, 7, 0, 0), area(4, 7, 0, 0)));
}

#[test]
fn the_tabs_are_in_the_middle() {
    let tabs = tabs_area(area(17, 1, 62, 3), 14);
    assert_eq!(tabs, area(41, 2, 14, 1));
    assert_eq!(tabs_area(area(0, 0, 16, 3), 14), area(1, 1, 14, 1));
    assert_eq!(tabs_area(area(0, 0, 17, 3), 14), area(2, 1, 14, 1));
    assert_eq!(tabs_area(area(17, 1, 63, 3), 14), area(42, 2, 14, 1));
    for width in 0..16u16 {
        let x = if width == 0 { 5 } else { 6 };
        assert_eq!(
            tabs_area(area(5, 1, width, 3), 14),
            area(x, 2, width.saturating_sub(2), 1)
        );
    }
    for width in 16..90u16 {
        for tabs in [0, 1, 13, 14] {
            let x = 6 + (width - 2 - tabs + 1) / 2;
            assert_eq!(tabs_area(area(5, 1, width, 3), tabs), area(x, 2, tabs, 1));
        }
    }
}

#[test]
fn the_navigation_bar() {
    let bar = render_navbar(area(17, 1, 62, 3), 0);
    assert_eq!(bar.tabs, vec!["Home".to_string(), "Search".to_string()]);
    assert_eq!(bar.selected, 0);
    assert_eq!(bar.area, area(41, 2, 14, 1));
    assert_eq!(width_of_tabs(&vec!["a".to_string()]), 2);
    assert_eq!(width_of_tabs(&vec!["ä".to_string(), String::new(), "b".to_string()]), 10);
}

#[test]
fn frames_have_their_titles_set_off() {
    let frame = panel(" Queue ", Tint::Green);
    assert_eq!(frame.title, "  Queue  ");
    assert_eq!(frame.color, Tint::Green);
}

#[test]
fn artists_are_separated_by_commas() {
    let artist = |name: &str| Artist { id: String::new(), name: name.to_string() };
    assert_eq!(joined_artists(&Vec::new()), "");
    assert_eq!(joined_artists(&vec![artist("A")]), "A");
    assert_eq!(joined_artists(&vec![artist("A"), artist(""), artist("C")]), "A, , C");
}

#[test]
fn the_player_panel() {
    let mut app = app();
    let shown = app.render_player().unwrap();
    assert_eq!(shown.frame.title, "  Player  ");
    assert_eq!(shown.frame.color, Tint::Green);
    assert_eq!(shown.volume, "65%");
    assert_eq!(shown.gauge, Gauge { filled: 50_000, total: 200_000 });
    assert!(matches!(
        shown.text,
        PlayerText::Track { name, artists } if name == "Song" && artists == "Ann, Bob"
    ));
    app.focus = Some(Focus::Queue);
    app.state.player.progress_ms = 200_001;
    let shown = app.render_player().unwrap();
    assert_eq!(shown.frame.color, Tint::White);
    assert_eq!(shown.gauge, Gauge { filled: 200_000, total: 200_000 });
}

#[test]
fn the_player_panel_without_a_track() {
    let app = App::new();
    let shown = app.render_player().unwrap();
    assert_eq!(shown.volume, "0%");
    assert_eq!(shown.gauge, Gauge { filled: 0, total: 0 });
    assert!(matches!(shown.text, PlayerText::Notice(text) if text == "No track playing"));
}

#[test]
fn the_queue_panel() {
    let mut app = app();
    app.focus = Some(Focus::Queue);
    app.state.queue = Some(Queue {
        currently_playing: None,
        queue: vec![track("A", 60_000), track("B", 600_000), track("C", 1)],
    });
    let shown = app.render_queue().unwrap();
    assert_eq!(shown.frame.title, "  Queue  ");
    assert_eq!(shown.frame.color, Tint::Green);
    assert_eq!(shown.header_color, Tint::Yellow);
    assert_eq!(
        (shown.header.number.as_str(), shown.header.name.as_str(), shown.header.time.as_str()),
        (" #", "TRACK", "IN")
    );
    assert_eq!(
        rows(&shown),
        vec![row(" 1", "A", " 2m"), row(" 2", "B", " 3m"), row(" 3", "C", "13m")]
    );
    assert_eq!(shown.columns, vec![Room::Length(2), Room::Min(10), Room::Length(3)]);
    assert_eq!(shown.column_spacing, 2);
}

#[test]
fn the_times_of_the_queue_do_not_wrap() {
    let mut app = app();
    app.state.queue = Some(Queue {
        currently_playing: None,
        queue: (0..12).map(|i| track(&format!("T{i}"), u32::MAX / 2)).collect(),
    });
    let shown = rows(&app.render_queue().unwrap());
    assert_eq!(shown.len(), 12);
    assert_eq!(shown[0].2, " 2m");
    assert_eq!(shown[1].2, "35793m");
    assert_eq!(shown[2].2, "71582m");
    assert_eq!(shown[11], row("12", "T11", "71582m"));
}

#[test]
fn an_empty_queue() {
    let mut app = app();
    assert_eq!(rows(&app.render_queue().unwrap()), vec![row("", "No queue", "")]);
    app.state.queue = Some(Queue { currently_playing: None, queue: Vec::new() });
    let shown = app.render_queue().unwrap();
    assert_eq!(rows(&shown), vec![row("", "No queue", "")]);
    assert_eq!(shown.frame.color, Tint::White);
    assert_eq!(shown.header_color, Tint::White);
}

fn history(names: &[Option<&str>]) -> History {
    History {
        items: names
            .iter()
            .map(|name| PlayedTrack {
                track: name.map(|name| track(name, 1)),
                played_at: "2020-01-01T00:00:00Z".to_string(),
            })
            .collect(),
    }
}

#[test]
fn the_history_panel() {
    let mut app = app();
    app.focus = Some(Focus::History);
    app.state.history = Some(history(&[None, Some("A"), None, Some("B")]));
    let shown = app.history_panel_with(&vec![61_000, 3_600_000]).unwrap();
    assert_eq!(shown.frame.title, "  History  ");
    assert_eq!(shown.frame.color, Tint::Green);
    assert_eq!(shown.header_color, Tint::Yellow);
    assert_eq!(shown.header.time, "AGO");
    assert_eq!(rows(&shown), vec![row(" 1", "A", " 1m"), row(" 2", "B", "60m")]);
}

#[test]
fn the_history_as_of_given_moments() {
    let mut app = app();
    app.state.history = Some(history(&[Some("A"), None, Some("B"), Some("C")]));
    app.state.history.as_mut().unwrap().items[3].played_at = "never".to_string();
    // 2020 began 1 577 836 800 seconds after 1970.
    let at = |secs: i64| Moment { secs: 1_577_836_800 + secs, nanos: 0 };
    let shown = app.history_panel_at(&vec![at(180), at(-5), at(9_999)]).unwrap();
    assert_eq!(
        rows(&shown),
        vec![row(" 1", "A", " 3m"), row(" 2", "B", " 0m"), row(" 3", "C", " 0m")]
    );
    app.state.history = None;
    let shown = app.history_panel_at(&Vec::new()).unwrap();
    assert_eq!(rows(&shown), vec![row("", "No history", "")]);
}

#[test]
fn the_history_as_of_now() {
    let mut app = app();
    app.state.history = Some(history(&[Some("A"), None]));
    app.state.history.as_mut().unwrap().items[0].played_at =
        (chrono::Utc::now() - chrono::TimeDelta::seconds(150)).to_rfc3339();
    assert_eq!(rows(&app.render_history().unwrap()), vec![row(" 1", "A", " 2m")]);
}

#[test]
fn an_empty_history() {
    let mut app = app();
    let nothing = vec![row("", "No history", "")];
    assert_eq!(rows(&app.render_history().unwrap()), nothing);
    app.state.history = Some(history(&[]));
    assert_eq!(rows(&app.render_history().unwrap()), nothing);
    app.state.history = Some(history(&[None, None]));
    assert_eq!(rows(&app.render_history().unwrap()), nothing);
}

#[test]
fn the_instructions() {
    let mut app = app();
    assert_eq!(
        app.render_instructions(),
        Some("Space Pause/Resume | Enter Refresh | h/← Previous | l/→ Next | ↑/↓ Volume | m Mute | s Shuffle | r Repeat")
    );
    app.focus = Some(Focus::Queue);
    assert_eq!(
        app.render_instructions(),
        Some("Enter Play | ↑/k Up | ↓/j Down | Home/End Jump")
    );
    app.focus = Some(Focus::History);
    assert_eq!(
        app.render_instructions(),
        Some("Enter Play | h/← Queue | ↑/k Up | ↓/j Down | Home/End Jump")
    );
}

#[test]
fn errors_are_stacked_at_the_right_side() {
    let mut app = app();
    app.error_list.push_back("0123456789".to_string());
    app.error_list.push_back("ää".to_string());
    app.error_list.push_back(String::new());
    let boxes = app.render_error(area(32, 0, 48, 24));
    assert_eq!(boxes.len(), 3);
    assert_eq!(boxes[0].area, area(66, 0, 14, 4));
    assert_eq!(boxes[0].message, "0123456789");
    assert_eq!(boxes[0].heading, "Error");
    assert!(boxes[0].closable);
    assert_eq!(boxes[1].area, area(72, 4, 8, 4));
    assert!(!boxes[1].closable);
    assert_eq!(boxes[2].area, area(76, 8, 4, 4));
    assert_eq!(boxes[2].message, "");
}

#[test]
fn long_errors_are_wrapped_and_cut_off() {
    let mut app = app();
    app.error_list.push_back("x".repeat(25));
    app.error_list.push_back("y".repeat(100));
    app.error_list.push_back("z".to_string());
    let boxes = app.render_error(area(5, 2, 12, 10));
    assert_eq!(boxes[0].area, area(5, 2, 12, 6));
    assert_eq!(boxes[1].area, area(5, 8, 12, 4));
    assert_eq!(boxes[2].area, area(12, 12, 5, 0));
}

#[test]
fn errors_are_wrapped_at_words() {
    let mut app = app();
    app.error_list.push_back("aaa bbb ccc ddd".to_string());
    assert_eq!(app.render_error(area(0, 0, 7, 20))[0].area, area(0, 0, 7, 7));
    assert_eq!(app.render_error(area(0, 0, 9, 20))[0].area, area(0, 0, 9, 5));
    assert_eq!(app.render_error(area(0, 0, 40, 20))[0].area, area(21, 0, 19, 4));
    app.error_list[0] = "→→→ →→→".to_string();
    assert_eq!(app.render_error(area(0, 0, 7, 20))[0].area, area(0, 0, 7, 5));
}

/// The lines that words take, each in the line of the one before it if it fits.
fn packed(words: &[String], width: usize) -> u16 {
    let (mut lines, mut used) = (0, 0);
    for word in words {
        if lines > 0 && used + 1 + word.len() <= width {
            used += 1 + word.len();
        } else {
            lines += 1;
            used = word.len();
        }
    }
    lines
}

#[test]
fn words_are_packed_into_lines() {
    let mut seed: u32 = 7;
    for round in 0..600usize {
        let width: usize = 1 + round % 23;
        let mut words: Vec<String> = Vec::new();
        for _ in 0..1 + round % 11 {
            seed = seed.wrapping_mul(1_103_515_245).wrapping_add(12_345);
            let length = 1 + (seed >> 16) as usize % width;
            words.push("x".repeat(length));
        }
        let message = words.join(" ");
        let mut app = app();
        app.error_list.push_back(message.clone());
        let boxes = app.render_error(area(0, 0, width as u16 + 2, 200));
        let content = (message.len() + 2).min(width);
        assert_eq!(boxes[0].area.height, packed(&words, content) + 3, "{message} {width}");
    }
}

#[test]
fn closing_removes_the_box_that_can_be_closed() {
    let mut app = app();
    for error in ["one", "two", "three"] {
        app.error_list.push_back(error.to_string());
    }
    for expected in ["one", "two", "three"] {
        let boxes = app.render_error(area(0, 0, 40, 20));
        assert_eq!(boxes[0].message, expected);
        assert_eq!(boxes.iter().filter(|shown| shown.closable).count(), 1);
        assert!(boxes[0].closable);
        app.update(Action::Close);
    }
    assert!(app.error_list.is_empty());
}

#[test]
fn the_height_of_a_box() {
    assert_eq!(box_height(4, 20), 7);
    assert_eq!(box_height(4, 7), 7);
    assert_eq!(box_height(4, 6), 6);
    assert_eq!(box_height(1, 0), 0);
    assert_eq!(box_height(0, 2), 2);
    assert_eq!(box_height(usize::MAX, u16::MAX), u16::MAX);
    assert_eq!(box_height(65_532, u16::MAX), u16::MAX);
}

#[test]
fn errors_without_room() {
    let mut app = app();
    app.error_list.push_back("x".repeat(65_531));
    app.error_list.push_back("y".repeat(65_536 + 3));
    let boxes = app.render_error(area(0, 0, 1, 3));
    assert_eq!(boxes[0].area, area(0, 0, 1, 3));
    assert_eq!(boxes[1].area, area(0, 3, 1, 0));
    let boxes = app.render_error(area(7, 0, 0, 65_535));
    assert_eq!(boxes[0].area, area(7, 0, 0, 65_534));
    assert_eq!(boxes[1].area, area(7, 65_534, 0, 1));
    assert!(App::new().render_error(area(0, 0, 9, 9)).is_empty());
}

#[test]
fn the_widest_areas() {
    let mut app = app();
    app.error_list.push_back("x".repeat(16_381));
    assert_eq!(app.render_error(area(0, 0, 65_535, 9))[0].area, area(49_150, 0, 16_385, 4));
    app.error_list[0] = "x".repeat(17_000);
    assert_eq!(app.render_error(area(0, 0, 20_000, 9))[0].area, area(2_996, 0, 17_004, 4));
    app.error_list[0] = "x".repeat(65_531);
    assert_eq!(app.render_error(area(0, 0, 65_535, 9))[0].area, area(0, 0, 65_535, 4));
    assert_eq!(app.render_error(area(0, 0, 40_000, 9))[0].area, area(0, 0, 40_000, 5));
    app.error_list[0] = "\u{5b57}".repeat(21_843);
    assert_eq!(app.render_error(area(0, 0, 30_002, 9))[0].area, area(0, 0, 30_002, 5));
    app.error_list[0] = "x".repeat(32_766);
    assert_eq!(app.render_error(area(0, 0, 16_385, 9))[0].area, area(0, 0, 16_385, 5));
}

fn lists(app: &mut App, queue: usize, played: usize) {
    app.state.queue = Some(Queue {
        currently_playing: None,
        queue: (0..queue).map(|i| track(&format!("Q{i}"), 1)).collect(),
    });
    app.state.history = Some(History {
        items: (0..played)
            .map(|i| PlayedTrack {
                track: Some(track(&format!("H{i}"), 1)),
                played_at: String::new(),
            })
            .collect(),
    });
}

#[test]
fn drawing_brings_the_selections_back() {
    let mut app = app();
    lists(&mut app, 3, 2);
    app.queue_state = Selection { selected: Some(usize::MAX), offset: 1 };
    app.history_state = Selection { selected: Some(1), offset: 0 };
    app.render(area(0, 0, 80, 24));
    assert_eq!(app.queue_state, Selection { selected: Some(2), offset: 1 });
    assert_eq!(app.history_state, Selection { selected: Some(1), offset: 0 });
    lists(&mut app, 0, 0);
    app.history_state.selected = None;
    app.render(area(0, 0, 80, 24));
    assert_eq!(app.queue_state, Selection { selected: Some(0), offset: 1 });
    assert_eq!(app.history_state.selected, None);
}

#[test]
fn what_is_not_drawn_leaves_the_selections_alone() {
    let far = Selection { selected: Some(usize::MAX), offset: 1 };
    let mut app = app();
    lists(&mut app, 3, 2);
    app.queue_state = far;
    app.focus = None;
    app.render(area(0, 0, 80, 24));
    assert_eq!(app.queue_state, far);
    app.focus = Some(Focus::Queue);
    app.render(area(0, 0, 2, 24));
    assert_eq!(app.queue_state, far);
    assert_eq!(selection_after_drawing(far, 5, area(0, 0, 2, 9)), far);
    assert_eq!(selection_after_drawing(far, 5, area(0, 0, 9, 2)), far);
    assert_eq!(
        selection_after_drawing(far, 5, area(0, 0, 3, 3)),
        Selection { selected: Some(4), offset: 1 }
    );
}

#[test]
fn selections_agree_with_a_drawn_table() {
    for (width, height) in [(0, 0), (2, 5), (3, 3), (5, 2), (20, 10)] {
        for rows in 1..5usize {
            for selected in [None, Some(0), Some(2), Some(9), Some(usize::MAX)] {
                let rect = Rect::new(0, 0, width, height);
                let mut state = TableState::new().with_selected(selected);
                let table = Table::new((0..rows).map(|_| Row::new(["x"])), [Constraint::Min(1)])
                    .block(Block::bordered());
                StatefulWidget::render(table, rect, &mut Buffer::empty(rect), &mut state);
                let drawn = selection_after_drawing(
                    Selection { selected, offset: 0 },
                    rows,
                    area(0, 0, width, height),
                );
                assert_eq!(drawn.selected, state.selected());
            }
        }
    }
}

#[test]
fn end_and_enter_play_the_last_track() {
    let mut app = app();
    lists(&mut app, 3, 2);
    app.update(Action::QueueLast);
    assert!(matches!(app.update(Action::PlayQueue), Effect::Nothing));
    app.render(area(0, 0, 80, 24));
    assert_eq!(app.queue_state.selected, Some(2));
    assert!(matches!(app.update(Action::PlayQueue), Effect::Command { outcome: Ok(_) }));
    app.update(Action::HistoryLast);
    app.render(area(0, 0, 80, 24));
    assert_eq!(app.selected_history_track().unwrap().name, "H1");
    assert!(matches!(app.update(Action::PlayHistory), Effect::Command { outcome: Ok(_) }));
}

#[test]
fn the_whole_picture() {
    let mut app = app();
    app.error_list.push_back("Test Error".to_string());
    let picture = app.render(area(0, 0, 80, 24));
    assert_eq!(picture.screen.player, area(1, 16, 78, 5));
    assert_eq!(picture.player_areas, (area(2, 17, 76, 2), area(2, 19, 76, 1)));
    assert_eq!(picture.navbar.area, area(41, 2, 14, 1));
    assert_eq!(picture.player.unwrap().volume, "65%");
    assert_eq!(rows(&picture.queue.unwrap()), vec![row("", "No queue", "")]);
    assert_eq!(rows(&picture.history.unwrap()), vec![row("", "No history", "")]);
    assert!(picture.instructions.unwrap().starts_with("Space"));
    assert_eq!(picture.popups[0].area, area(66, 0, 14, 4));
}

#[test]
fn nothing_but_errors_without_a_focus() {
    let mut app = app();
    app.focus = None;
    app.error_list.push_back("Test Error".to_string());
    let picture = app.render(area(0, 0, 80, 24));
    assert!(picture.player.is_none());
    assert!(picture.queue.is_none());
    assert!(picture.history.is_none());
    assert!(picture.instructions.is_none());
    assert_eq!(picture.popups.len(), 1);
    assert_eq!(picture.navbar.selected, 0);
}
