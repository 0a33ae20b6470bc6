//! What the panels show.

use crate::app::{base_volume, selected_in_history, selected_in_queue, App, AppView};
use crate::clock::{elapsed_since, Moment};
use crate::focus::Focus;
use crate::history::{played, played_begins_with, played_of_prefix};
use crate::layout::{bordered, centered, tabs_area, tabs_placed, Area, Room};
use crate::model::{player_duration, player_remaining, Artist, History, PlayedTrack};
use crate::model::{Player, Queue, Track};
use crate::text::{concatenated, decimal, decimal_field, decimal_field_text, decimal_text};
use crate::text::{format_ms, joined, minutes_field};
use vstd::prelude::*;
use vstd::utf8::encode_utf8;

verus! {

/// The colours that depend on the focus.
#[derive(Debug, Clone, Copy, PartialEq, Eq, Structural)]
pub enum Tint {
    Green,
    White,
    Yellow,
}

/// The frame of a panel.
#[derive(Debug, Clone)]
pub struct PanelFrame {
    pub title: String,
    pub color: Tint,
}

pub struct PanelFrameView {
    pub title: Seq<char>,
    pub color: Tint,
}

impl View for PanelFrame {
    type V = PanelFrameView;

    open spec fn view(&self) -> PanelFrameView {
        PanelFrameView { title: self.title@, color: self.color }
    }
}

/// A frame with `title` set off by blanks.
pub open spec fn framed(title: Seq<char>, color: Tint) -> PanelFrameView {
    PanelFrameView { title: " "@ + title + " "@, color }
}

/// The frame of a panel with the given title.
pub fn panel(title: &str, color: Tint) -> (frame: PanelFrame)
    ensures
        frame@ == framed(title@, color),
{
    let opened = concatenated(" ", title);
    PanelFrame { title: concatenated(opened.as_str(), " "), color }
}

/// What is being played.
#[derive(Debug, Clone)]
pub enum PlayerText {
    Track { name: String, artists: String },
    Notice(String),
}

pub enum PlayerTextView {
    Track { name: Seq<char>, artists: Seq<char> },
    Notice(Seq<char>),
}

impl View for PlayerText {
    type V = PlayerTextView;

    open spec fn view(&self) -> PlayerTextView {
        match *self {
            PlayerText::Track { name, artists } => PlayerTextView::Track {
                name: name@,
                artists: artists@,
            },
            PlayerText::Notice(text) => PlayerTextView::Notice(text@),
        }
    }
}

/// How much of the gauge is filled: `filled` parts out of `total`, nothing if
/// `total` is zero.
#[derive(Debug, Clone, Copy, PartialEq, Eq, Structural)]
pub struct Gauge {
    pub filled: u32,
    pub total: u32,
}

/// The contents of the player's panel.
#[derive(Debug, Clone)]
pub struct PlayerPanel {
    pub frame: PanelFrame,
    pub text: PlayerText,
    pub volume: String,
    pub gauge: Gauge,
}

pub struct PlayerPanelView {
    pub frame: PanelFrameView,
    pub text: PlayerTextView,
    pub volume: Seq<char>,
    pub gauge: Gauge,
}

impl View for PlayerPanel {
    type V = PlayerPanelView;

    open spec fn view(&self) -> PlayerPanelView {
        PlayerPanelView {
            frame: self.frame@,
            text: self.text@,
            volume: self.volume@,
            gauge: self.gauge,
        }
    }
}

/// The names of the artists.
pub open spec fn artist_names(artists: Seq<Artist>) -> Seq<Seq<char>> {
    artists.map_values(|artist: Artist| artist.name@)
}

/// The track being played with its artists, or that there is none.
pub open spec fn player_text(player: Player) -> PlayerTextView {
    match player.item {
        Some(track) => PlayerTextView::Track {
            name: track.name@,
            artists: joined(artist_names(track.artists@), ", "@),
        },
        None => PlayerTextView::Notice("No track playing"@),
    }
}

/// The progress within the duration; nothing without a track.
pub open spec fn player_gauge(player: Player) -> Gauge {
    match player_duration(player) {
        Ok(duration) => Gauge {
            filled: if player.progress_ms < duration {
                player.progress_ms
            } else {
                duration
            },
            total: duration,
        },
        Err(error) => Gauge { filled: 0, total: 0 },
    }
}

/// The panel of the player when the keys go to `focus`.
pub open spec fn player_panel(player: Player, focus: Focus) -> PlayerPanelView {
    PlayerPanelView {
        frame: framed(
            " Player "@,
            if focus is Player {
                Tint::Green
            } else {
                Tint::White
            },
        ),
        text: player_text(player),
        volume: decimal(base_volume(player) as int) + seq!['%'],
        gauge: player_gauge(player),
    }
}

/// The names of the artists, separated by commas.
pub fn joined_artists(artists: &Vec<Artist>) -> (names: String)
    ensures
        names@ == joined(artist_names(artists@), ", "@),
{
    let mut names = String::new();
    for i in 0..artists.len()
        invariant
            names@ == joined(artist_names(artists@.take(i as int)), ", "@),
    {
        if i > 0 {
            names.append(", ");
        }
        names.append(artists[i].name.as_str());
        proof {
            let parts = artist_names(artists@.take(i + 1));
            assert(parts.drop_last() =~= artist_names(artists@.take(i as int)));
            assert(parts.last() == artists[i as int].name@);
            assert(names@ =~= joined(parts, ", "@));
        }
    }
    assert(artists@.take(artists@.len() as int) =~= artists@);
    names
}

/// A row of a table.
#[derive(Debug, Clone)]
pub struct TableRow {
    pub number: String,
    pub name: String,
    pub time: String,
}

pub struct TableRowView {
    pub number: Seq<char>,
    pub name: Seq<char>,
    pub time: Seq<char>,
}

impl View for TableRow {
    type V = TableRowView;

    open spec fn view(&self) -> TableRowView {
        TableRowView { number: self.number@, name: self.name@, time: self.time@ }
    }
}

/// The rows by what they hold.
pub open spec fn row_views(rows: Seq<TableRow>) -> Seq<TableRowView> {
    rows.map_values(|row: TableRow| row@)
}

/// The contents of a panel with a table.
#[derive(Debug, Clone)]
pub struct TablePanel {
    pub frame: PanelFrame,
    pub header: TableRow,
    pub header_color: Tint,
    pub rows: Vec<TableRow>,
    /// The room that the columns ask for.
    pub columns: Vec<Room>,
    /// The room between two columns.
    pub column_spacing: u16,
}

#[verifier::ext_equal]
pub struct TablePanelView {
    pub frame: PanelFrameView,
    pub header: TableRowView,
    pub header_color: Tint,
    pub rows: Seq<TableRowView>,
    pub columns: Seq<Room>,
    pub column_spacing: u16,
}

impl View for TablePanel {
    type V = TablePanelView;

    open spec fn view(&self) -> TablePanelView {
        TablePanelView {
            frame: self.frame@,
            header: self.header@,
            header_color: self.header_color,
            rows: row_views(self.rows@),
            columns: self.columns@,
            column_spacing: self.column_spacing,
        }
    }
}

/// A row that only says something.
pub open spec fn notice_row(text: Seq<char>) -> TableRowView {
    TableRowView { number: Seq::empty(), name: text, time: Seq::empty() }
}

/// A row that only says something.
fn notice(text: &str) -> (row: TableRow)
    ensures
        row@ == notice_row(text@),
{
    TableRow { number: String::new(), name: text.to_owned(), time: String::new() }
}

/// A panel with a table, in other colours when the keys go to it.
pub open spec fn table_panel(
    title: Seq<char>,
    time_title: Seq<char>,
    focused: bool,
    rows: Seq<TableRowView>,
) -> TablePanelView {
    TablePanelView {
        frame: framed(
            title,
            if focused {
                Tint::Green
            } else {
                Tint::White
            },
        ),
        header: TableRowView { number: " #"@, name: "TRACK"@, time: time_title },
        header_color: if focused {
            Tint::Yellow
        } else {
            Tint::White
        },
        rows,
        columns: seq![Room::Length(2), Room::Min(10), Room::Length(3)],
        column_spacing: 2,
    }
}

/// A panel with a table.
fn panel_with_table(title: &str, time_title: &str, focused: bool, rows: Vec<TableRow>) -> (panel:
    TablePanel)
    ensures
        panel@ == table_panel(title@, time_title@, focused, row_views(rows@)),
{
    let (block_color, header_color) = if focused {
        (Tint::Green, Tint::Yellow)
    } else {
        (Tint::White, Tint::White)
    };
    let columns: Vec<Room> = vec![Room::Length(2), Room::Min(10), Room::Length(3)];
    assert(columns@ =~= seq![Room::Length(2), Room::Min(10), Room::Length(3)]);
    TablePanel {
        frame: panel(title, block_color),
        header: TableRow {
            number: " #".to_owned(),
            name: "TRACK".to_owned(),
            time: time_title.to_owned(),
        },
        header_color,
        rows,
        columns,
        column_spacing: 2,
    }
}

/// How long the tracks take together.
pub open spec fn total_duration(tracks: Seq<Track>) -> int
    decreases tracks.len(),
{
    if tracks.len() == 0 {
        0
    } else {
        total_duration(tracks.drop_last()) + tracks.last().duration_ms
    }
}

/// When the `i`th track will start if `remaining` is left of the one before
/// them all, in milliseconds from now, as far as 32 bits hold it.
pub open spec fn starts_in(tracks: Seq<Track>, remaining: u32, i: int) -> int {
    let sum = remaining + total_duration(tracks.take(i));
    if sum <= u32::MAX {
        sum
    } else {
        u32::MAX as int
    }
}

/// The rows of the queue: each track with its place and the time until it
/// starts.
pub open spec fn queue_rows(tracks: Seq<Track>, remaining: u32) -> Seq<TableRowView> {
    Seq::new(
        tracks.len(),
        |i: int|
            TableRowView {
                number: decimal_field(i + 1),
                name: tracks[i].name@,
                time: minutes_field(starts_in(tracks, remaining, i)),
            },
    )
}

/// What is left of the track being played, nothing without one.
pub open spec fn remaining_or_zero(player: Player) -> u32 {
    match player_remaining(player) {
        Ok(remaining) => remaining,
        Err(error) => 0,
    }
}

/// The tracks in the queue, as far as it is known.
pub open spec fn queued(queue: Option<Queue>) -> Seq<Track> {
    match queue {
        Some(queue) => queue.queue@,
        None => Seq::empty(),
    }
}

/// The panel of the queue when the keys go to `focus`.
pub open spec fn queue_panel(player: Player, queue: Option<Queue>, focus: Focus) -> TablePanelView {
    table_panel(
        " Queue "@,
        "IN"@,
        focus is Queue,
        if queued(queue).len() > 0 {
            queue_rows(queued(queue), remaining_or_zero(player))
        } else {
            seq![notice_row("No queue"@)]
        },
    )
}

/// The rows of the queue.
fn rows_of_queue(tracks: &Vec<Track>, remaining: u32) -> (rows: Vec<TableRow>)
    ensures
        row_views(rows@) == queue_rows(tracks@, remaining),
{
    let mut rows: Vec<TableRow> = Vec::new();
    let mut remaining_ms: u32 = remaining;
    proof {
        assert(tracks@.take(0) =~= Seq::<Track>::empty());
    }
    for i in 0..tracks.len()
        invariant
            remaining_ms == starts_in(tracks@, remaining, i as int),
            rows@.len() == i,
            forall|j: int|
                0 <= j < i ==> (#[trigger] rows@[j])@ == queue_rows(tracks@, remaining)[j],
    {
        let time = format_ms(remaining_ms);
        proof {
            assert(tracks@.take(i + 1).drop_last() =~= tracks@.take(i as int));
        }
        remaining_ms = remaining_ms.saturating_add(tracks[i].duration_ms);
        rows.push(
            TableRow {
                number: decimal_field_text(i as u64 + 1),
                name: tracks[i].name.clone(),
                time,
            },
        );
    }
    assert(row_views(rows@) =~= queue_rows(tracks@, remaining));
    rows
}

/// The rows of the history: each track with its place and the time since it
/// was played.
pub open spec fn history_rows(entries: Seq<PlayedTrack>, elapsed: Seq<u32>) -> Seq<TableRowView> {
    Seq::new(
        entries.len(),
        |i: int|
            TableRowView {
                number: decimal_field(i + 1),
                name: entries[i].track->0.name@,
                time: minutes_field(elapsed[i] as int),
            },
    )
}

/// The entries of the history that have a track, as far as it is known.
pub open spec fn entries_of(history: Option<History>) -> Seq<PlayedTrack> {
    match history {
        Some(history) => played(history.items@),
        None => Seq::empty(),
    }
}

/// The panel of the history when the keys go to `focus`, the tracks having been
/// played `elapsed` milliseconds ago.
pub open spec fn history_panel(
    history: Option<History>,
    elapsed: Seq<u32>,
    focus: Focus,
) -> TablePanelView {
    table_panel(
        " History "@,
        "AGO"@,
        focus is History,
        if entries_of(history).len() > 0 {
            history_rows(entries_of(history), elapsed)
        } else {
            seq![notice_row("No history"@)]
        },
    )
}

/// Each number is how long ago the track was played, at some moment.
pub open spec fn are_elapsed(entries: Seq<PlayedTrack>, elapsed: Seq<u32>) -> bool {
    &&& elapsed.len() == entries.len()
    &&& forall|i: int| 0 <= i < entries.len() ==> is_elapsed(entries[i], #[trigger] elapsed[i])
}

/// The number is how long ago the track was played, at some moment.
pub open spec fn is_elapsed(entry: PlayedTrack, elapsed: u32) -> bool {
    exists|now: Moment|
        now.on_a_clock() && elapsed == #[trigger] elapsed_since(entry.played_at@, now)
}

/// How long before the given moments the tracks were played.
pub open spec fn elapsed_at_moments(entries: Seq<PlayedTrack>, nows: Seq<Moment>) -> Seq<u32> {
    Seq::new(entries.len(), |i: int| elapsed_since(entries[i].played_at@, nows[i]) as u32)
}

/// How long before the given moments the tracks were played.
fn elapsed_before(items: &Vec<PlayedTrack>, nows: &Vec<Moment>) -> (elapsed: Vec<u32>)
    requires
        nows@.len() == played(items@).len(),
        forall|i: int| 0 <= i < nows@.len() ==> (#[trigger] nows@[i]).valid(),
    ensures
        elapsed@ == elapsed_at_moments(played(items@), nows@),
{
    let mut elapsed: Vec<u32> = Vec::new();
    proof {
        reveal(Seq::filter);
    }
    for i in 0..items.len()
        invariant
            nows@.len() == played(items@).len(),
            forall|j: int| 0 <= j < nows@.len() ==> (#[trigger] nows@[j]).valid(),
            elapsed@.len() == played(items@.take(i as int)).len(),
            forall|j: int|
                0 <= j < elapsed@.len() ==> #[trigger] elapsed@[j] == elapsed_at_moments(
                    played(items@),
                    nows@,
                )[j],
    {
        proof {
            played_of_prefix(items@, i as int);
            played_begins_with(items@, i as int + 1);
        }
        if items[i].track.is_some() {
            let now: Moment = nows[elapsed.len()];
            elapsed.push(items[i].elapsed_at(now));
        }
    }
    assert(items@.take(items@.len() as int) =~= items@);
    assert(elapsed@ =~= elapsed_at_moments(played(items@), nows@));
    elapsed
}

/// The rows of the history.
fn rows_of_history(items: &Vec<PlayedTrack>, elapsed: &Vec<u32>) -> (rows: Vec<TableRow>)
    requires
        elapsed@.len() == played(items@).len(),
    ensures
        row_views(rows@) == history_rows(played(items@), elapsed@),
{
    let mut rows: Vec<TableRow> = Vec::new();
    proof {
        reveal(Seq::filter);
    }
    for i in 0..items.len()
        invariant
            elapsed@.len() == played(items@).len(),
            rows@.len() == played(items@.take(i as int)).len(),
            rows@.len() <= i,
            forall|j: int|
                0 <= j < rows@.len() ==> (#[trigger] rows@[j])@ == history_rows(
                    played(items@),
                    elapsed@,
                )[j],
    {
        proof {
            played_of_prefix(items@, i as int);
            played_begins_with(items@, i as int + 1);
        }
        if let Some(track) = &items[i].track {
            let n: usize = rows.len();
            rows.push(
                TableRow {
                    number: decimal_field_text(n as u64 + 1),
                    name: track.name.clone(),
                    time: format_ms(elapsed[n]),
                },
            );
        }
    }
    assert(items@.take(items@.len() as int) =~= items@);
    assert(row_views(rows@) =~= history_rows(played(items@), elapsed@));
    rows
}

/// How long ago the tracks were played.
fn elapsed_of(items: &Vec<PlayedTrack>) -> (elapsed: Vec<u32>)
    ensures
        are_elapsed(played(items@), elapsed@),
{
    let mut elapsed: Vec<u32> = Vec::new();
    proof {
        reveal(Seq::filter);
    }
    for i in 0..items.len()
        invariant
            are_elapsed(played(items@.take(i as int)), elapsed@),
    {
        proof {
            played_of_prefix(items@, i as int);
        }
        if items[i].track.is_some() {
            elapsed.push(items[i].get_elapsed());
        }
    }
    assert(items@.take(items@.len() as int) =~= items@);
    elapsed
}

/// What the keys do when they go to `focus`.
pub open spec fn instructions(focus: Focus) -> Seq<char> {
    match focus {
        Focus::Player => "Space Pause/Resume | Enter Refresh | h/← Previous | l/→ Next | ↑/↓ Volume | m Mute | s Shuffle | r Repeat"@,
        Focus::Queue => "Enter Play | ↑/k Up | ↓/j Down | Home/End Jump"@,
        Focus::History => "Enter Play | h/← Queue | ↑/k Up | ↓/j Down | Home/End Jump"@,
    }
}

/// The navigation bar: the tabs, which of them is selected, and where they go.
#[derive(Debug, Clone)]
pub struct Navbar {
    pub tabs: Vec<String>,
    pub selected: usize,
    pub area: Area,
}

/// The texts by what they hold.
pub open spec fn text_views(texts: Seq<String>) -> Seq<Seq<char>> {
    texts.map_values(|text: String| text@)
}

/// How many bytes the texts take together.
pub open spec fn total_bytes(texts: Seq<Seq<char>>) -> int
    decreases texts.len(),
{
    if texts.len() == 0 {
        0
    } else {
        total_bytes(texts.drop_last()) + encode_utf8(texts.last()).len()
    }
}

/// The width of a row of tabs: the texts, three columns between two of them,
/// and one more.
pub open spec fn tabs_width(tabs: Seq<Seq<char>>) -> int {
    total_bytes(tabs) + (tabs.len() - 1) * 3 + 1
}

/// The texts of a beginning take no more than all of them.
proof fn total_bytes_of_prefix(texts: Seq<Seq<char>>, i: int)
    requires
        0 <= i <= texts.len(),
    ensures
        0 <= total_bytes(texts.take(i)) <= total_bytes(texts),
    decreases texts.len(),
{
    if i == texts.len() {
        assert(texts.take(i) =~= texts);
        if i > 0 {
            total_bytes_of_prefix(texts.drop_last(), i - 1);
            assert(texts.drop_last().take(i - 1) =~= texts.drop_last());
        }
    } else {
        total_bytes_of_prefix(texts.drop_last(), i);
        assert(texts.drop_last().take(i) =~= texts.take(i));
    }
}

/// The width of a row of tabs.
pub fn width_of_tabs(tabs: &Vec<String>) -> (width: u16)
    requires
        tabs@.len() > 0,
        tabs_width(text_views(tabs@)) <= u16::MAX,
    ensures
        width == tabs_width(text_views(tabs@)),
{
    let ghost texts = text_views(tabs@);
    proof {
        total_bytes_of_prefix(texts, 0);
    }
    let mut width: u16 = 0;
    for i in 0..tabs.len()
        invariant
            texts == text_views(tabs@),
            tabs_width(texts) <= u16::MAX,
            width == total_bytes(texts.take(i as int)),
    {
        proof {
            total_bytes_of_prefix(texts, i as int + 1);
            assert(texts.take(i + 1).drop_last() =~= texts.take(i as int));
            assert(texts.take(i + 1).last() == tabs[i as int]@);
        }
        width = width + tabs[i].as_str().as_bytes().len() as u16;
    }
    assert(texts.take(tabs@.len() as int) =~= texts);
    width + (tabs.len() as u16 - 1) * 3 + 1
}

/// The tabs there are.
pub open spec fn all_tabs() -> Seq<Seq<char>> {
    seq!["Home"@, "Search"@]
}

/// The tabs take fourteen columns.
pub proof fn width_of_all_tabs()
    ensures
        tabs_width(all_tabs()) == 14,
{
    reveal_strlit("Home");
    reveal_strlit("Search");
    vstd::utf8::is_ascii_chars_encode_utf8("Home"@);
    vstd::utf8::is_ascii_chars_encode_utf8("Search"@);
    reveal_with_fuel(total_bytes, 3);
    assert(all_tabs().drop_last() =~= seq!["Home"@]);
    assert(all_tabs().drop_last().drop_last() =~= Seq::<Seq<char>>::empty());
}

/// The navigation bar in `area`.
pub fn render_navbar(area: Area, selected: usize) -> (navbar: Navbar)
    ensures
        text_views(navbar.tabs@) == all_tabs(),
        navbar.selected == selected,
        tabs_placed(area, 14, navbar.area),
        area.on_screen() ==> navbar.area == centered(bordered(area), 14),
{
    let tabs: Vec<String> = vec!["Home".to_owned(), "Search".to_owned()];
    proof {
        assert(text_views(tabs@) =~= all_tabs());
        width_of_all_tabs();
    }
    let width: u16 = width_of_tabs(&tabs);
    let area = tabs_area(area, width);
    Navbar { tabs, selected, area }
}

impl App {
    /// The panel of the player; none if the focus cannot be read.
    pub fn render_player(&self) -> (shown: Option<PlayerPanel>)
        ensures
            match self.focus {
                Some(focus) => shown is Some && shown->0@ == player_panel(self.state.player, focus),
                None => shown is None,
            },
    {
        let focus: Focus = match self.focus {
            Some(focus) => focus,
            None => {
                return None;
            },
        };
        let color = if focus == Focus::Player {
            Tint::Green
        } else {
            Tint::White
        };
        let player: &Player = &self.state.player;
        let text = match &player.item {
            Some(track) => PlayerText::Track {
                name: track.name.clone(),
                artists: joined_artists(&track.artists),
            },
            None => PlayerText::Notice("No track playing".to_owned()),
        };
        let volume_percent: u8 = match self.get_volume_percent() {
            Ok(volume) => volume,
            Err(_) => 0,
        };
        let mut volume = decimal_text(volume_percent as u64);
        volume.push('%');
        assert(volume@ =~= decimal(volume_percent as int) + seq!['%']);
        let gauge = match player.get_duration() {
            Ok(duration_ms) => Gauge {
                filled: if player.progress_ms < duration_ms {
                    player.progress_ms
                } else {
                    duration_ms
                },
                total: duration_ms,
            },
            Err(_) => Gauge { filled: 0, total: 0 },
        };
        Some(PlayerPanel { frame: panel(" Player ", color), text, volume, gauge })
    }

    /// The panel of the queue; none if the focus cannot be read.
    pub fn render_queue(&self) -> (shown: Option<TablePanel>)
        ensures
            match self.focus {
                Some(focus) => shown is Some && shown->0@ == queue_panel(
                    self.state.player,
                    self.state.queue,
                    focus,
                ),
                None => shown is None,
            },
    {
        let focus: Focus = match self.focus {
            Some(focus) => focus,
            None => {
                return None;
            },
        };
        let remaining_ms: u32 = match self.state.player.get_remaining() {
            Ok(remaining) => remaining,
            Err(_) => 0,
        };
        let rows = match &self.state.queue {
            Some(queue) if queue.queue.len() > 0 => rows_of_queue(&queue.queue, remaining_ms),
            _ => vec![notice("No queue")],
        };
        let shown = panel_with_table(" Queue ", "IN", focus == Focus::Queue, rows);
        assert(shown@ =~= queue_panel(self.state.player, self.state.queue, focus));
        Some(shown)
    }

    /// The panel of the history, the tracks having been played `elapsed`
    /// milliseconds ago; none if the focus cannot be read.
    pub fn history_panel_with(&self, elapsed: &Vec<u32>) -> (shown: Option<TablePanel>)
        requires
            elapsed@.len() == entries_of(self.state.history).len(),
        ensures
            match self.focus {
                Some(focus) => shown is Some && shown->0@ == history_panel(
                    self.state.history,
                    elapsed@,
                    focus,
                ),
                None => shown is None,
            },
    {
        let focus: Focus = match self.focus {
            Some(focus) => focus,
            None => {
                return None;
            },
        };
        let rows = match &self.state.history {
            Some(history) if elapsed.len() > 0 => rows_of_history(&history.items, elapsed),
            _ => vec![notice("No history")],
        };
        let shown = panel_with_table(" History ", "AGO", focus == Focus::History, rows);
        assert(shown@ =~= history_panel(self.state.history, elapsed@, focus));
        Some(shown)
    }

    /// The panel of the history as of the given moments, one for each track; none if
    /// the focus cannot be read.
    pub fn history_panel_at(&self, nows: &Vec<Moment>) -> (shown: Option<TablePanel>)
        requires
            nows@.len() == entries_of(self.state.history).len(),
            forall|i: int| 0 <= i < nows@.len() ==> (#[trigger] nows@[i]).valid(),
        ensures
            match self.focus {
                Some(focus) => shown is Some && shown->0@ == history_panel(
                    self.state.history,
                    elapsed_at_moments(entries_of(self.state.history), nows@),
                    focus,
                ),
                None => shown is None,
            },
            shown is Some ==> forall|i: int|
                0 <= i < nows@.len() ==> (#[trigger] shown->0@.rows[i]).time == minutes_field(
                    elapsed_since(entries_of(self.state.history)[i].played_at@, nows@[i]),
                ),
    {
        let elapsed: Vec<u32> = match &self.state.history {
            Some(history) => elapsed_before(&history.items, nows),
            None => Vec::new(),
        };
        assert(elapsed@ =~= elapsed_at_moments(entries_of(self.state.history), nows@));
        self.history_panel_with(&elapsed)
    }

    /// The panel of the history as of now; none if the focus cannot be read.
    pub fn render_history(&self) -> (shown: Option<TablePanel>)
        ensures
            match self.focus {
                Some(focus) => shown is Some && exists|elapsed: Seq<u32>|
                    are_elapsed(entries_of(self.state.history), elapsed) && shown->0@
                        == #[trigger] history_panel(self.state.history, elapsed, focus),
                None => shown is None,
            },
    {
        let elapsed: Vec<u32> = match &self.state.history {
            Some(history) => elapsed_of(&history.items),
            None => Vec::new(),
        };
        self.history_panel_with(&elapsed)
    }

    /// What the keys do; nothing if the focus cannot be read.
    pub fn render_instructions(&self) -> (text: Option<&'static str>)
        ensures
            match self.focus {
                Some(focus) => text is Some && text->0@ == instructions(focus),
                None => text is None,
            },
    {
        match self.focus {
            Some(Focus::Player) => Some(
                "Space Pause/Resume | Enter Refresh | h/← Previous | l/→ Next | ↑/↓ Volume | m Mute | s Shuffle | r Repeat",
            ),
            Some(Focus::Queue) => Some("Enter Play | ↑/k Up | ↓/j Down | Home/End Jump"),
            Some(Focus::History) => Some(
                "Enter Play | h/← Queue | ↑/k Up | ↓/j Down | Home/End Jump",
            ),
            None => None,
        }
    }
}

/// The gauge is never more than full.
pub proof fn gauge_is_within_bounds(player: Player)
    ensures
        player_gauge(player).filled <= player_gauge(player).total,
{
}

/// The next tracks start one after the other: no row of the queue shows an
/// earlier time than the row above it.
pub proof fn queue_is_in_order(tracks: Seq<Track>, remaining: u32, i: int, j: int)
    requires
        0 <= i <= j <= tracks.len(),
    ensures
        remaining <= starts_in(tracks, remaining, i) <= starts_in(tracks, remaining, j),
    decreases j,
{
    if i < j {
        assert(tracks.take(j).drop_last() =~= tracks.take(j - 1));
        queue_is_in_order(tracks, remaining, i, j - 1);
    } else if i > 0 {
        assert(tracks.take(i).drop_last() =~= tracks.take(i - 1));
        queue_is_in_order(tracks, remaining, 0, i - 1);
    } else {
        assert(tracks.take(0) =~= Seq::<Track>::empty());
    }
}

/// The first track of the queue starts when the track being played ends.
pub proof fn queue_starts_when_the_track_ends(tracks: Seq<Track>, remaining: u32)
    ensures
        starts_in(tracks, remaining, 0) == remaining,
{
    assert(tracks.take(0) =~= Seq::<Track>::empty());
}

/// What is played from a list is what its selected row shows.
pub proof fn the_selected_row_is_played(app: AppView, elapsed: Seq<u32>)
    ensures
        selected_in_queue(app) matches Some(track) ==> {
            let rows = queue_rows(
                queued(app.state.queue),
                remaining_or_zero(app.state.player),
            );
            &&& app.queue_state.selected->0 < rows.len()
            &&& rows[app.queue_state.selected->0 as int].name == track.name@
        },
        selected_in_history(app) matches Some(track) ==> {
            let rows = history_rows(entries_of(app.state.history), elapsed);
            &&& app.history_state.selected->0 < rows.len()
            &&& rows[app.history_state.selected->0 as int].name == track.name@
        },
{
}

/// At most one panel stands out, and it is the one that the keys go to.
pub proof fn only_the_focused_panel_stands_out(
    player: Player,
    queue: Option<Queue>,
    history: Option<History>,
    elapsed: Seq<u32>,
    focus: Focus,
)
    ensures
        player_panel(player, focus).frame.color == Tint::Green <==> focus is Player,
        queue_panel(player, queue, focus).frame.color == Tint::Green <==> focus is Queue,
        history_panel(history, elapsed, focus).frame.color == Tint::Green <==> focus is History,
{
}

/// A list shows all its tracks, and never nothing.
pub proof fn lists_are_complete(
    player: Player,
    queue: Option<Queue>,
    history: Option<History>,
    elapsed: Seq<u32>,
    focus: Focus,
)
    ensures
        queue_panel(player, queue, focus).rows.len() == if queued(queue).len() > 0 {
            queued(queue).len()
        } else {
            1
        },
        history_panel(history, elapsed, focus).rows.len() == if entries_of(history).len() > 0 {
            entries_of(history).len()
        } else {
            1
        },
{
}

/// Each track of the queue starts when the one before it ends, the first when the
/// track being played ends, as far as 32 bits hold the time.
pub proof fn tracks_start_one_after_the_other(tracks: Seq<Track>, remaining: u32, i: int)
    requires
        0 <= i < tracks.len(),
    ensures
        starts_in(tracks, remaining, 0) == remaining,
        ({
            let end = starts_in(tracks, remaining, i) + tracks[i].duration_ms;
            &&& end <= u32::MAX ==> starts_in(tracks, remaining, i + 1) == end
            &&& end > u32::MAX ==> starts_in(tracks, remaining, i + 1) == u32::MAX
        }),
{
    assert(tracks.take(0) =~= Seq::<Track>::empty());
    assert(tracks.take(i + 1).drop_last() =~= tracks.take(i));
}

/// Each row of the queue shows its track: its place, counted from one, its name, and
/// when it starts.
pub proof fn rows_show_the_queue(
    player: Player,
    queue: Option<Queue>,
    focus: Focus,
    tracks: Seq<Track>,
    i: int,
)
    requires
        queue is Some,
        tracks == queue->0.queue@,
        0 <= i < tracks.len(),
    ensures
        ({
            let rows = queue_panel(player, queue, focus).rows;
            let left = match player.item {
                Some(track) if track.duration_ms > player.progress_ms => (track.duration_ms
                    - player.progress_ms) as u32,
                _ => 0,
            };
            &&& rows.len() == tracks.len()
            &&& rows[i].number == decimal_field(i + 1)
            &&& rows[i].name == tracks[i].name@
            &&& rows[i].time == minutes_field(starts_in(tracks, left, i))
        }),
{
}

/// Each row of the history shows its entry: its place, counted from one, the name of
/// its track, and how long ago it was played.
pub proof fn rows_show_the_history(
    history: Option<History>,
    elapsed: Seq<u32>,
    focus: Focus,
    i: int,
)
    requires
        history is Some,
        0 <= i < played(history->0.items@).len(),
    ensures
        ({
            let entry = played(history->0.items@)[i];
            let rows = history_panel(history, elapsed, focus).rows;
            &&& rows.len() == played(history->0.items@).len()
            &&& rows[i].number == decimal_field(i + 1)
            &&& entry.track is Some
            &&& rows[i].name == entry.track->0.name@
            &&& rows[i].time == minutes_field(elapsed[i] as int)
        }),
{
    crate::history::played_have_tracks(history->0.items@, i);
}

/// An empty list, and one that is not known, say so in a single row.
pub proof fn empty_lists_say_so(
    player: Player,
    queue: Option<Queue>,
    history: Option<History>,
    elapsed: Seq<u32>,
    focus: Focus,
)
    ensures
        queue is None || queue->0.queue@.len() == 0 ==> queue_panel(player, queue, focus).rows
            == seq![
            TableRowView { number: Seq::empty(), name: "No queue"@, time: Seq::empty() },
        ],
        history is None || played(history->0.items@).len() == 0 ==> history_panel(
            history,
            elapsed,
            focus,
        ).rows == seq![
            TableRowView { number: Seq::empty(), name: "No history"@, time: Seq::empty() },
        ],
{
}

/// The tables have their titles and headings, and columns for numbers of two signs,
/// names, and times of three signs.
pub proof fn tables_have_their_headings(
    player: Player,
    queue: Option<Queue>,
    history: Option<History>,
    elapsed: Seq<u32>,
    focus: Focus,
)
    ensures
        ({
            let shown = queue_panel(player, queue, focus);
            &&& shown.frame.title == " "@ + " Queue "@ + " "@
            &&& shown.header.number == " #"@
            &&& shown.header.name == "TRACK"@
            &&& shown.header.time == "IN"@
            &&& shown.header_color == Tint::Yellow <==> focus == Focus::Queue
            &&& shown.header_color == Tint::White <==> focus != Focus::Queue
            &&& shown.frame.color == Tint::White <==> focus != Focus::Queue
            &&& shown.columns == seq![Room::Length(2), Room::Min(10), Room::Length(3)]
            &&& shown.column_spacing == 2
        }),
        ({
            let shown = history_panel(history, elapsed, focus);
            &&& shown.frame.title == " "@ + " History "@ + " "@
            &&& shown.header.number == " #"@
            &&& shown.header.name == "TRACK"@
            &&& shown.header.time == "AGO"@
            &&& shown.header_color == Tint::Yellow <==> focus == Focus::History
            &&& shown.header_color == Tint::White <==> focus != Focus::History
            &&& shown.frame.color == Tint::White <==> focus != Focus::History
            &&& shown.columns == seq![Room::Length(2), Room::Min(10), Room::Length(3)]
            &&& shown.column_spacing == 2
        }),
{
}

/// The player shows the track with all its artists, the volume of the device, and how
/// far the track has come.
pub proof fn the_player_is_shown(player: Player, focus: Focus)
    ensures
        ({
            let shown = player_panel(player, focus);
            &&& shown.frame.title == " "@ + " Player "@ + " "@
            &&& shown.frame.color == Tint::White <==> focus != Focus::Player
            &&& player.device matches Some(device) ==> shown.volume == decimal(
                device.volume_percent as int,
            ).push('%')
            &&& player.device is None ==> shown.volume == decimal(0).push('%')
            &&& player.item is None ==> {
                &&& shown.text == PlayerTextView::Notice("No track playing"@)
                &&& shown.gauge.filled == 0
                &&& shown.gauge.total == 0
            }
            &&& player.item matches Some(track) ==> {
                &&& shown.text is Track
                &&& shown.text->name == track.name@
                &&& shown.text->artists == joined(artist_names(track.artists@), ", "@)
                &&& shown.gauge.total == track.duration_ms
                &&& player.progress_ms <= track.duration_ms ==> shown.gauge.filled
                    == player.progress_ms
                &&& player.progress_ms >= track.duration_ms ==> shown.gauge.filled
                    == track.duration_ms
            }
        }),
{
    assert(player_panel(player, focus).volume =~= decimal(base_volume(player) as int).push('%'));
}

/// Every artist is named, in order.
pub proof fn all_artists_are_named(artists: Seq<Artist>, i: int)
    requires
        0 <= i < artists.len(),
    ensures
        artist_names(artists).len() == artists.len(),
        artist_names(artists)[i] == artists[i].name@,
{
}

/// The moments decide how long ago the tracks were played, each for its own.
pub proof fn moments_go_with_their_entries(
    entries: Seq<PlayedTrack>,
    nows: Seq<Moment>,
    i: int,
)
    requires
        0 <= i < entries.len(),
    ensures
        elapsed_at_moments(entries, nows).len() == entries.len(),
        elapsed_at_moments(entries, nows)[i] == elapsed_since(entries[i].played_at@, nows[i]),
{
    if let Some(then) = crate::clock::rfc3339_moment(entries[i].played_at@) {
        crate::clock::elapsed_is_what_fits(nows[i], then);
    }
}

/// A row of tabs grows by the bytes of a further tab and three columns before it.
pub proof fn one_more_tab(tabs: Seq<Seq<char>>, tab: Seq<char>)
    ensures
        tabs_width(seq![tab]) == encode_utf8(tab).len() + 1,
        tabs_width(tabs.push(tab)) == tabs_width(tabs) + 3 + encode_utf8(tab).len(),
        all_tabs() == seq!["Home"@, "Search"@],
{
    reveal_with_fuel(total_bytes, 2);
    assert(seq![tab].drop_last() =~= Seq::<Seq<char>>::empty());
    assert(tabs.push(tab).drop_last() =~= tabs);
}

/// Nothing of a panel is left out of its view.
pub proof fn panels_keep_their_parts(table: TablePanel, player: PlayerPanel, navbar: Navbar)
    ensures
        table@.frame.title == table.frame.title@,
        table@.frame.color == table.frame.color,
        table@.header_color == table.header_color,
        table@.columns == table.columns@,
        table@.column_spacing == table.column_spacing,
        table@.header.number == table.header.number@,
        table@.header.name == table.header.name@,
        table@.header.time == table.header.time@,
        table@.rows.len() == table.rows@.len(),
        forall|i: int|
            0 <= i < table.rows@.len() ==> (#[trigger] table@.rows[i]).number
                == table.rows@[i].number@ && table@.rows[i].name == table.rows@[i].name@
                && table@.rows[i].time == table.rows@[i].time@,
        player@.frame.title == player.frame.title@,
        player@.frame.color == player.frame.color,
        player@.volume == player.volume@,
        player@.gauge == player.gauge,
        player.text matches PlayerText::Track { name, artists } ==> player@.text == (
        PlayerTextView::Track { name: name@, artists: artists@ }),
        player.text matches PlayerText::Notice(text) ==> player@.text == PlayerTextView::Notice(
            text@,
        ),
        text_views(navbar.tabs@).len() == navbar.tabs@.len(),
        forall|i: int|
            0 <= i < navbar.tabs@.len() ==> #[trigger] text_views(navbar.tabs@)[i]
                == navbar.tabs@[i]@,
{
}

/// A number that is shown as the time since a track was played is that at a moment on
/// a clock, and nothing for a text that is no time.
pub proof fn elapsed_is_of_some_moment(entries: Seq<PlayedTrack>, elapsed: Seq<u32>, i: int)
    requires
        0 <= i < entries.len(),
    ensures
        are_elapsed(entries, elapsed) ==> {
            &&& elapsed.len() == entries.len()
            &&& exists|now: Moment|
                now.secs >= 0 && now.nanos < 1_000_000_000 && elapsed[i]
                    == #[trigger] elapsed_since(entries[i].played_at@, now)
            &&& crate::clock::rfc3339_moment(entries[i].played_at@) is None ==> elapsed[i] == 0
        },
{
    if are_elapsed(entries, elapsed) {
        assert(is_elapsed(entries[i], elapsed[i]));
    }
}

} // verus!
