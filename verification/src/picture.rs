//! The whole screen.

use crate::action::{ActionView, EffectView};
use crate::app::{app_effect, app_step, context_uri, App, AppView};
use crate::layout::{
    bordered, centered, divided, everything_is_on_the_screen, inside_border, is_screen,
    known_screen, player_areas, player_rooms, screen, tabs_placed, text_rows, Area, Axis, Screen,
};
use crate::panel::{
    all_tabs, are_elapsed, entries_of, history_panel, instructions, player_panel, queue_panel, queued,
    render_navbar, text_views, Navbar, PlayerPanel, TablePanel,
};
use crate::popup::{is_wrapped, popup_views, popups, widths_fit, Popup};
use crate::request::play_request;
use crate::selection::{clamp, clamped, Selection};
use vstd::prelude::*;

verus! {

/// What is drawn, in this order; what comes later covers what came before. A
/// panel that is missing leaves its area empty.
#[derive(Debug)]
pub struct Picture {
    pub screen: Screen,
    pub navbar: Navbar,
    pub player: Option<PlayerPanel>,
    /// Where the player shows its text and its gauge.
    pub player_areas: (Area, Area),
    pub queue: Option<TablePanel>,
    pub history: Option<TablePanel>,
    pub instructions: Option<&'static str>,
    pub popups: Vec<Popup>,
}

/// The selection after a table with so many rows was drawn with a border in
/// `area`: a row beyond the table has become its last one, unless the border left
/// no room for the table.
pub open spec fn drawn_selection(selection: Selection, rows: nat, area: Area) -> Selection {
    if bordered(area).width == 0 || bordered(area).height == 0 {
        selection
    } else {
        clamped(selection, rows)
    }
}

/// The selection after a table with so many rows was drawn with a border in
/// `area`. Which row is the first that is shown is for the drawing to find.
pub fn selection_after_drawing(selection: Selection, rows: usize, area: Area) -> (after: Selection)
    ensures
        after == drawn_selection(selection, rows as nat, area),
{
    let inner = inside_border(area);
    if inner.width == 0 || inner.height == 0 {
        selection
    } else {
        clamp(selection, rows)
    }
}

/// The rows that a list is drawn with: its tracks, or the one that says that there
/// are none.
pub open spec fn drawn_rows(tracks: nat) -> nat {
    if tracks > 0 {
        tracks
    } else {
        1
    }
}

/// The application after it was drawn: both lists have brought their selections
/// back. Without a focus no list is drawn.
pub open spec fn drawn(app: AppView, screen: Screen) -> AppView {
    if app.focus is None {
        app
    } else {
        AppView {
            queue_state: drawn_selection(
                app.queue_state,
                drawn_rows(queued(app.state.queue).len()),
                screen.queue,
            ),
            history_state: drawn_selection(
                app.history_state,
                drawn_rows(entries_of(app.state.history).len()),
                screen.history,
            ),
            ..app
        }
    }
}

impl App {
    /// Everything that is drawn on a screen that takes up `area`. The lists bring
    /// their selections back as they are drawn.
    pub fn render(&mut self, area: Area) -> (picture: Picture)
        requires
            area.on_screen(),
            widths_fit(old(self)@.errors, area.width),
        ensures
            final(self)@ == drawn(old(self)@, picture.screen),
            is_screen(area, picture.screen),
            picture.screen == known_screen(area),
            text_views(picture.navbar.tabs@) == all_tabs(),
            picture.navbar.selected == 0,
            tabs_placed(picture.screen.navbar, 14, picture.navbar.area),
            picture.navbar.area == centered(bordered(picture.screen.navbar), 14),
            divided(
                bordered(picture.screen.player),
                Axis::Down,
                player_rooms(),
                seq![picture.player_areas.0, picture.player_areas.1],
            ),
            ({
                let inner = bordered(picture.screen.player);
                let text_height = text_rows(inner.height as int);
                &&& picture.player_areas.0 == (Area { height: text_height as u16, ..inner })
                &&& picture.player_areas.1 == (Area {
                    y: (inner.y + text_height) as u16,
                    height: (inner.height - text_height) as u16,
                    ..inner
                })
            }),
            popup_views(picture.popups@) == popups(old(self)@.errors, picture.screen.errors),
            forall|i: int|
                0 <= i < old(self)@.errors.len() ==> is_wrapped(
                    #[trigger] old(self)@.errors[i],
                    picture.screen.errors,
                ),
            match old(self).focus {
                Some(focus) => {
                    &&& picture.player is Some
                    &&& picture.player->0@ == player_panel(old(self).state.player, focus)
                    &&& picture.queue is Some
                    &&& picture.queue->0@ == queue_panel(
                        old(self).state.player,
                        old(self).state.queue,
                        focus,
                    )
                    &&& picture.history is Some
                    &&& exists|elapsed: Seq<u32>|
                        are_elapsed(entries_of(old(self).state.history), elapsed)
                            && picture.history->0@ == #[trigger] history_panel(
                            old(self).state.history,
                            elapsed,
                            focus,
                        )
                    &&& picture.instructions is Some
                    &&& picture.instructions->0@ == instructions(focus)
                },
                None => {
                    &&& picture.player is None
                    &&& picture.queue is None
                    &&& picture.history is None
                    &&& picture.instructions is None
                },
            },
    {
        let screen = screen(area);
        proof {
            everything_is_on_the_screen(area, screen);
        }
        let queue = self.render_queue();
        let history = self.render_history();
        let picture = Picture {
            screen,
            navbar: render_navbar(screen.navbar, 0),
            player: self.render_player(),
            player_areas: player_areas(screen.player),
            queue,
            history,
            instructions: self.render_instructions(),
            popups: self.render_error(screen.errors),
        };
        if let Some(panel) = &picture.queue {
            assert(panel@.rows.len() == panel.rows@.len());
            self.queue_state = selection_after_drawing(
                self.queue_state,
                panel.rows.len(),
                screen.queue,
            );
        }
        if let Some(panel) = &picture.history {
            assert(panel@.rows.len() == panel.rows@.len());
            self.history_state = selection_after_drawing(
                self.history_state,
                panel.rows.len(),
                screen.history,
            );
        }
        picture
    }
}

/// After a drawing, a selected row is a row of what was drawn, and drawing again
/// changes nothing.
pub proof fn drawn_selections_exist(selection: Selection, rows: nat, area: Area)
    requires
        0 < rows <= usize::MAX,
        bordered(area).width > 0,
        bordered(area).height > 0,
    ensures
        drawn_selection(selection, rows, area).selected is Some <==> selection.selected is Some,
        drawn_selection(selection, rows, area).selected matches Some(row) ==> row < rows,
        drawn_selection(drawn_selection(selection, rows, area), rows, area) == drawn_selection(
            selection,
            rows,
            area,
        ),
{
}

/// Jumping to the end of a list and playing, with a drawing in between, plays the
/// last track of the list.
pub proof fn the_end_is_the_last_track(app: AppView, screen: Screen)
    requires
        app.focus is Some,
        bordered(screen.queue).width > 0,
        bordered(screen.queue).height > 0,
        bordered(screen.history).width > 0,
        bordered(screen.history).height > 0,
    ensures
        queued(app.state.queue).len() > 0 ==> app_effect(
            drawn(app_step(app, ActionView::QueueLast), screen),
            ActionView::PlayQueue,
        ) == (EffectView::Command {
            outcome: play_request(
                app.state.player,
                queued(app.state.queue).last().uri@,
                context_uri(app.state.player),
            ),
        }),
        entries_of(app.state.history).len() > 0 ==> app_effect(
            drawn(app_step(app, ActionView::HistoryLast), screen),
            ActionView::PlayHistory,
        ) == (EffectView::Command {
            outcome: play_request(
                app.state.player,
                entries_of(app.state.history).last().track->0.uri@,
                context_uri(app.state.player),
            ),
        }),
{
    if let Some(queue) = app.state.queue {
        assert(queue.queue@.len() == queue.queue.len());
    }
    if let Some(history) = app.state.history {
        assert(history.items@.len() == history.items.len());
        history.items@.lemma_filter_len(crate::history::has_track());
        if entries_of(app.state.history).len() > 0 {
            crate::history::played_have_tracks(
                history.items@,
                entries_of(app.state.history).len() - 1,
            );
        }
    }
}

/// The error that can be closed is the one that closing removes; drawing removes
/// none.
pub proof fn the_closable_error_is_closed(app: AppView, screen: Screen, area: Area)
    requires
        app.errors.len() > 0,
    ensures
        popups(app.errors, area)[0].closable,
        popups(app.errors, area)[0].message == app.errors[0],
        app_step(app, ActionView::Close).errors == app.errors.drop_first(),
        drawn(app, screen).errors == app.errors,
{
}

/// Drawing a table keeps a row that exists, turns one beyond it into the last, and
/// does not scroll by itself; where there is no room for the table it does nothing.
pub proof fn drawing_moves_only_what_is_beyond(selection: Selection, rows: nat, area: Area)
    requires
        0 < rows <= usize::MAX,
    ensures
        ({
            let after = drawn_selection(selection, rows, area);
            let room = bordered(area).width > 0 && bordered(area).height > 0;
            &&& after.offset == selection.offset
            &&& !room ==> after == selection
            &&& selection.selected is None ==> after == selection
            &&& selection.selected matches Some(row) ==> {
                &&& row < rows ==> after == selection
                &&& room && row >= rows ==> after.selected is Some && after.selected->0 == rows - 1
            }
        }),
{
}

/// Drawing changes the selections of the two lists and nothing else, each by the rows
/// of its own list: its tracks, or the one that says that there are none.
pub proof fn drawing_touches_only_the_selections(app: AppView, screen: Screen)
    ensures
        ({
            let after = drawn(app, screen);
            &&& after.state == app.state
            &&& after.focus == app.focus
            &&& after.errors == app.errors
            &&& after.exit == app.exit
            &&& app.focus is None ==> after == app
            &&& app.focus is Some ==> {
                &&& app.state.queue matches Some(queue) ==> {
                    &&& queue.queue@.len() > 0 ==> after.queue_state == drawn_selection(
                        app.queue_state,
                        queue.queue@.len(),
                        screen.queue,
                    )
                    &&& queue.queue@.len() == 0 ==> after.queue_state == drawn_selection(
                        app.queue_state,
                        1,
                        screen.queue,
                    )
                }
                &&& app.state.queue is None ==> after.queue_state == drawn_selection(
                    app.queue_state,
                    1,
                    screen.queue,
                )
                &&& app.state.history matches Some(history) ==> {
                    let count = crate::history::played(history.items@).len();
                    &&& count > 0 ==> after.history_state == drawn_selection(
                        app.history_state,
                        count,
                        screen.history,
                    )
                    &&& count == 0 ==> after.history_state == drawn_selection(
                        app.history_state,
                        1,
                        screen.history,
                    )
                }
                &&& app.state.history is None ==> after.history_state == drawn_selection(
                    app.history_state,
                    1,
                    screen.history,
                )
            }
        }),
{
}

} // verus!
