//! Where on the screen things are.

use ratatui::layout::{Constraint, Direction, Layout, Rect};
use ratatui::widgets::Block;
use vstd::prelude::*;

verus! {

/// A rectangle of the screen, in characters.
#[derive(Debug, Clone, Copy, PartialEq, Eq, Structural)]
pub struct Area {
    pub x: u16,
    pub y: u16,
    pub width: u16,
    pub height: u16,
}

/// The way in which an area is divided: parts below or beside one another.
#[derive(Debug, Clone, Copy, PartialEq, Eq, Structural)]
pub enum Axis {
    Down,
    Across,
}

/// The room that a part of an area asks for.
#[derive(Debug, Clone, Copy, PartialEq, Eq, Structural)]
pub enum Room {
    Min(u16),
    Length(u16),
    Percentage(u16),
    Fill(u16),
}

/// A coordinate, or the greatest one if it lies beyond.
pub open spec fn capped(coordinate: int) -> int {
    if coordinate <= u16::MAX {
        coordinate
    } else {
        u16::MAX as int
    }
}

impl Area {
    /// The column after the last.
    pub open spec fn right(self) -> int {
        capped(self.x + self.width)
    }

    /// The row after the last.
    pub open spec fn bottom(self) -> int {
        capped(self.y + self.height)
    }

    /// The area lies within `outer`.
    pub open spec fn within(self, outer: Area) -> bool {
        &&& outer.x <= self.x
        &&& self.x + self.width <= outer.right()
        &&& outer.y <= self.y
        &&& self.y + self.height <= outer.bottom()
    }

    /// The area ends before the greatest coordinate.
    pub open spec fn on_screen(self) -> bool {
        self.x + self.width <= u16::MAX && self.y + self.height <= u16::MAX
    }

    /// Where the area starts on an axis.
    pub open spec fn start(self, axis: Axis) -> int {
        match axis {
            Axis::Down => self.y as int,
            Axis::Across => self.x as int,
        }
    }

    /// Where the area ends on an axis.
    pub open spec fn end(self, axis: Axis) -> int {
        match axis {
            Axis::Down => self.bottom(),
            Axis::Across => self.right(),
        }
    }

    /// How much of an axis the area takes.
    pub open spec fn size(self, axis: Axis) -> int {
        match axis {
            Axis::Down => self.height as int,
            Axis::Across => self.width as int,
        }
    }
}

/// The area without a margin on each side; the corner of the screen where there
/// is no room for the margin.
pub open spec fn without_margin(area: Area, margin: u16) -> Area {
    if area.width < capped(2 * margin) || area.height < capped(2 * margin) {
        Area { x: 0, y: 0, width: 0, height: 0 }
    } else {
        Area {
            x: capped(area.x + margin) as u16,
            y: capped(area.y + margin) as u16,
            width: (area.width - capped(2 * margin)) as u16,
            height: (area.height - capped(2 * margin)) as u16,
        }
    }
}

/// What the rooms ask for at least.
pub open spec fn wanted(rooms: Seq<Room>) -> int
    decreases rooms.len(),
{
    if rooms.len() == 0 {
        0
    } else {
        wanted(rooms.drop_last()) + match rooms.last() {
            Room::Min(n) => n as int,
            Room::Length(n) => n as int,
            _ => 0,
        }
    }
}

/// Rooms of given lengths, and rooms that grow alike.
pub open spec fn given_or_growing(rooms: Seq<Room>) -> bool {
    forall|i: int|
        0 <= i < rooms.len() ==> match #[trigger] rooms[i] {
            Room::Min(n) => n <= i16::MAX,
            Room::Length(n) => true,
            Room::Percentage(n) => false,
            Room::Fill(n) => n == 1,
        }
}

/// Up to three rooms of given and growing lengths that all get what they ask
/// for out of `size`.
pub open spec fn all_fit(rooms: Seq<Room>, size: int) -> bool {
    &&& rooms.len() <= 3
    &&& given_or_growing(rooms)
    &&& exists|i: int| 0 <= i < rooms.len() && !(#[trigger] rooms[i] is Length)
    &&& wanted(rooms) <= size
}

/// What the rooms that must have some length ask for.
pub open spec fn minimum(rooms: Seq<Room>) -> int
    decreases rooms.len(),
{
    if rooms.len() == 0 {
        0
    } else {
        minimum(rooms.drop_last()) + match rooms.last() {
            Room::Min(n) => n as int,
            _ => 0,
        }
    }
}

/// Up to three rooms of given and growing lengths of which only those that must
/// have some length get all of it out of `size`.
pub open spec fn too_little(rooms: Seq<Room>, size: int) -> bool {
    &&& rooms.len() <= 3
    &&& given_or_growing(rooms)
    &&& minimum(rooms) <= size < wanted(rooms)
}

/// Up to three rooms of given and growing lengths; the `k`th is the only one that
/// must have some length, and does not get it out of `size`.
pub open spec fn far_too_little(rooms: Seq<Room>, size: int, k: int) -> bool {
    &&& rooms.len() <= 3
    &&& given_or_growing(rooms)
    &&& 0 <= k < rooms.len()
    &&& forall|i: int| 0 <= i < rooms.len() ==> (#[trigger] rooms[i] is Min <==> i == k)
    &&& size < minimum(rooms)
}

/// The parts follow one another and take up all of `area`.
pub open spec fn seamless(area: Area, axis: Axis, parts: Seq<Area>) -> bool {
    &&& parts.len() > 0
    &&& parts.first().start(axis) == area.start(axis)
    &&& forall|i: int|
        0 < i < parts.len() ==> (#[trigger] parts[i]).start(axis) == parts[i - 1].start(axis)
            + parts[i - 1].size(axis)
    &&& parts.last().start(axis) + parts.last().size(axis) == area.end(axis)
}

/// The parts are a division of `area` into the rooms.
///
/// Each lies within the area and extends over all of the other axis. Where all
/// rooms get what they ask for, the parts are seamless, those of a given length
/// have it, and the others are at least as long as they must be. Where there is too
/// little, those are just as long as they must be and the given lengths share the
/// rest; where there is not even enough for the one that must have some length, it
/// gets everything. Two percentages that make up the whole meet where the first
/// ends, rounded. A given length between two rooms that grow is in the middle,
/// rounded. Where the player and the instructions get too little, they get the same
/// as far as the instructions ask for it.
pub open spec fn divided(area: Area, axis: Axis, rooms: Seq<Room>, parts: Seq<Area>) -> bool {
    &&& parts.len() == rooms.len()
    &&& forall|i: int|
        0 <= i < parts.len() ==> match axis {
            Axis::Down => {
                &&& (#[trigger] parts[i]).x == area.x
                &&& parts[i].width == area.width
            },
            Axis::Across => {
                &&& parts[i].y == area.y
                &&& parts[i].height == area.height
            },
        }
    &&& forall|i: int|
        0 <= i < parts.len() ==> area.start(axis) <= (#[trigger] parts[i]).start(axis)
            && parts[i].start(axis) + parts[i].size(axis) <= area.end(axis)
    &&& all_fit(rooms, area.end(axis) - area.start(axis)) ==> {
        &&& seamless(area, axis, parts)
        &&& forall|i: int|
            0 <= i < parts.len() ==> match rooms[i] {
                Room::Min(n) => (#[trigger] parts[i]).size(axis) >= n,
                Room::Length(n) => parts[i].size(axis) == n,
                _ => true,
            }
    }
    &&& too_little(rooms, area.end(axis) - area.start(axis)) ==> {
        &&& seamless(area, axis, parts)
        &&& forall|i: int|
            0 <= i < parts.len() ==> match rooms[i] {
                Room::Min(n) => (#[trigger] parts[i]).size(axis) == n,
                Room::Length(n) => parts[i].size(axis) <= n,
                _ => parts[i].size(axis) == 0,
            }
    }
    &&& forall|k: int| #[trigger]
        far_too_little(rooms, area.end(axis) - area.start(axis), k) ==> {
            &&& seamless(area, axis, parts)
            &&& forall|i: int|
                0 <= i < parts.len() ==> (#[trigger] parts[i]).size(axis) == if i == k {
                    area.end(axis) - area.start(axis)
                } else {
                    0
                }
        }
    &&& forall|p: u16|
        p <= 100 && rooms == #[trigger] percentages(p) ==> {
            &&& seamless(area, axis, parts)
            &&& parts[0].size(axis) == ((area.end(axis) - area.start(axis)) * p + 50) / 100
        }
    &&& rooms == screen_rooms() && too_little(rooms, area.end(axis) - area.start(axis))
        ==> parts[1].size(axis) == player_rows(area.end(axis) - area.start(axis) - 5)
    &&& forall|n: u16|
        n <= area.end(axis) - area.start(axis) && rooms == #[trigger] tabs_rooms(n)
            ==> parts[1].start(axis) == area.start(axis) + (area.end(axis) - area.start(axis) - n
            + 1) / 2
}

/// `p` percent, and the rest.
pub open spec fn percentages(p: u16) -> Seq<Room> {
    seq![Room::Percentage(p), Room::Percentage((100 - p) as u16)]
}

/// `Layout::split` of ratatui, of the area without its margin: one part for
/// each room, divided as `divided` says. That two given lengths that get too little
/// get the same comes from the weakest of ratatui's rules, by which neighbouring
/// parts are of one size. Nothing is claimed of how other given lengths share what
/// is too little, nor of how other growing rooms share what is left.
#[verifier::external_body]
fn split(area: Area, axis: Axis, margin: u16, rooms: &Vec<Room>) -> (parts: Vec<Area>)
    ensures
        divided(without_margin(area, margin), axis, rooms@, parts@),
{
    let rooms = rooms.iter().map(|room| match room {
        Room::Min(n) => Constraint::Min(*n),
        Room::Length(n) => Constraint::Length(*n),
        Room::Percentage(n) => Constraint::Percentage(*n),
        Room::Fill(n) => Constraint::Fill(*n),
    });
    let direction = match axis {
        Axis::Down => Direction::Vertical,
        Axis::Across => Direction::Horizontal,
    };
    let area = Rect { x: area.x, y: area.y, width: area.width, height: area.height };
    let parts = Layout::new(direction, rooms).margin(margin).split(area);
    parts.iter().map(|p| Area { x: p.x, y: p.y, width: p.width, height: p.height }).collect()
}

/// What a border on all sides leaves of an area.
pub open spec fn bordered(area: Area) -> Area {
    Area {
        x: if area.x + 1 <= area.right() {
            (area.x + 1) as u16
        } else {
            area.x
        },
        y: if area.y + 1 <= area.bottom() {
            (area.y + 1) as u16
        } else {
            area.y
        },
        width: if area.width >= 2 {
            (area.width - 2) as u16
        } else {
            0
        },
        height: if area.height >= 2 {
            (area.height - 2) as u16
        } else {
            0
        },
    }
}

/// `Block::inner` of ratatui, of a block with borders on all sides and no
/// padding: the area within the borders.
#[verifier::external_body]
pub(crate) fn inside_border(area: Area) -> (inner: Area)
    ensures
        inner == bordered(area),
{
    let inner = Block::bordered().inner(
        Rect { x: area.x, y: area.y, width: area.width, height: area.height },
    );
    Area { x: inner.x, y: inner.y, width: inner.width, height: inner.height }
}

/// The areas of the screen.
#[derive(Debug, Clone, Copy, PartialEq, Eq, Structural)]
pub struct Screen {
    pub navbar: Area,
    pub queue: Area,
    pub history: Area,
    pub player: Area,
    pub instructions: Area,
    /// Where errors are shown, above everything else.
    pub errors: Area,
}

/// The upper part of the screen, the player, and the instructions.
pub open spec fn screen_rooms() -> Seq<Room> {
    seq![Room::Min(5), Room::Length(5), Room::Length(2)]
}

/// The rows of the player where `rest` are left for it and the instructions: half
/// of them, rounded up, or what the two rows of the instructions leave, up to five.
pub open spec fn player_rows(rest: int) -> int {
    if rest <= 4 {
        (rest + 1) / 2
    } else if rest <= 7 {
        rest - 2
    } else {
        5
    }
}

/// The navigation bar, and what it leads to.
pub open spec fn content_rooms() -> Seq<Room> {
    seq![Room::Length(3), Room::Min(5)]
}

/// The text of the player, and its gauge.
pub open spec fn player_rooms() -> Seq<Room> {
    seq![Room::Min(1), Room::Length(1)]
}

/// The tabs, in the middle.
pub open spec fn tabs_rooms(width: u16) -> Seq<Room> {
    seq![Room::Fill(1), Room::Length(width), Room::Fill(1)]
}

/// The screen is `area`, divided: within a margin, the upper part, the player
/// and the instructions below one another; in the upper part the queue, and on
/// its right the navigation bar and the history. Errors take the right part of
/// the whole.
pub open spec fn screen_divided(
    area: Area,
    upper: Area,
    right: Area,
    left: Area,
    screen: Screen,
) -> bool {
    &&& divided(
        without_margin(area, 1),
        Axis::Down,
        screen_rooms(),
        seq![upper, screen.player, screen.instructions],
    )
    &&& divided(upper, Axis::Across, percentages(20), seq![screen.queue, right])
    &&& divided(right, Axis::Down, content_rooms(), seq![screen.navbar, screen.history])
    &&& divided(area, Axis::Across, percentages(40), seq![left, screen.errors])
}

/// The screen is a division of `area`.
pub open spec fn is_screen(area: Area, screen: Screen) -> bool {
    exists|upper: Area, right: Area, left: Area| screen_divided(area, upper, right, left, screen)
}

/// Divides the screen.
pub fn screen(area: Area) -> (screen: Screen)
    ensures
        is_screen(area, screen),
        area.on_screen() ==> screen == known_screen(area),
{
    let rows = split(area, Axis::Down, 1, &vec![Room::Min(5), Room::Length(5), Room::Length(2)]);
    let columns = split(
        rows[0],
        Axis::Across,
        0,
        &vec![Room::Percentage(20), Room::Percentage(80)],
    );
    let contents = split(columns[1], Axis::Down, 0, &vec![Room::Length(3), Room::Min(5)]);
    let sides = split(area, Axis::Across, 0, &vec![Room::Percentage(40), Room::Percentage(60)]);
    let screen = Screen {
        navbar: contents[0],
        queue: columns[0],
        history: contents[1],
        player: rows[1],
        instructions: rows[2],
        errors: sides[1],
    };
    proof {
        assert(rows@ =~= seq![rows[0], screen.player, screen.instructions]);
        assert(columns@ =~= seq![screen.queue, columns[1]]);
        assert(contents@ =~= seq![screen.navbar, screen.history]);
        assert(sides@ =~= seq![sides[0], screen.errors]);
        assert(without_margin(rows[0], 0) == rows[0]);
        assert(without_margin(columns[1], 0) == columns[1]);
        assert(without_margin(area, 0) == area);
        assert(screen_divided(area, rows[0], columns[1], sides[0], screen));
        if area.on_screen() {
            the_screen_is_known(area, screen);
        }
    }
    screen
}

/// Where the player shows its text and its gauge.
pub fn player_areas(area: Area) -> (areas: (Area, Area))
    ensures
        divided(bordered(area), Axis::Down, player_rooms(), seq![areas.0, areas.1]),
        area.on_screen() ==> {
            let inner = bordered(area);
            let text_height = text_rows(inner.height as int);
            &&& areas.0 == (Area { height: text_height as u16, ..inner })
            &&& areas.1 == (Area {
                y: (inner.y + text_height) as u16,
                height: (inner.height - text_height) as u16,
                ..inner
            })
        },
{
    let inner = inside_border(area);
    let parts = split(inner, Axis::Down, 0, &vec![Room::Min(1), Room::Length(1)]);
    proof {
        let rooms = player_rooms();
        let size = inner.end(Axis::Down) - inner.start(Axis::Down);
        assert(parts@ =~= seq![parts[0], parts[1]]);
        assert(without_margin(inner, 0) == inner);
        rooms_of_the_player();
        if area.on_screen() {
            assert(rooms[0] == Room::Min(1) && rooms[1] == Room::Length(1));
            if size >= 2 {
                assert(all_fit(rooms, size));
            } else if size == 1 {
                assert(too_little(rooms, size));
            } else {
                assert(far_too_little(rooms, size, 0));
            }
        }
    }
    (parts[0], parts[1])
}

/// The rows of the player's text: all but the last, which is for the gauge, unless
/// there is but one.
pub open spec fn text_rows(height: int) -> int {
    if height >= 2 {
        height - 1
    } else {
        height
    }
}

/// What the rooms of the player ask for.
proof fn rooms_of_the_player()
    ensures
        wanted(player_rooms()) == 2,
        minimum(player_rooms()) == 1,
{
    reveal_with_fuel(wanted, 3);
    reveal_with_fuel(minimum, 3);
    assert(player_rooms().drop_last() =~= seq![Room::Min(1)]);
    assert(player_rooms().drop_last().drop_last() =~= Seq::<Room>::empty());
}

/// The tabs are in the middle of what the border leaves of `area`.
pub open spec fn tabs_placed(area: Area, width: u16, tabs: Area) -> bool {
    exists|before: Area, after: Area|
        divided(
            bordered(area),
            Axis::Across,
            tabs_rooms(width),
            #[trigger] seq![before, tabs, after],
        )
}

/// The middle of an area, rounded to the right; all of it if it is not wider than
/// what goes there.
pub open spec fn centered(area: Area, width: u16) -> Area {
    if width <= area.width {
        Area { x: (area.x + (area.width - width + 1) / 2) as u16, width, ..area }
    } else {
        area
    }
}

/// Where tabs of the given width go in the navigation bar.
pub fn tabs_area(area: Area, width: u16) -> (tabs: Area)
    ensures
        tabs_placed(area, width, tabs),
        area.on_screen() ==> tabs == centered(bordered(area), width),
{
    let inner = inside_border(area);
    let parts = split(
        inner,
        Axis::Across,
        0,
        &vec![Room::Fill(1), Room::Length(width), Room::Fill(1)],
    );
    proof {
        assert(parts@ =~= seq![parts[0], parts[1], parts[2]]);
        assert(without_margin(inner, 0) == inner);
        if area.on_screen() {
            let rooms = tabs_rooms(width);
            let size = inner.end(Axis::Across) - inner.start(Axis::Across);
            reveal_with_fuel(wanted, 4);
            reveal_with_fuel(minimum, 4);
            assert(rooms[0] == Room::Fill(1) && rooms[2] == Room::Fill(1));
            assert(rooms.drop_last() =~= seq![Room::Fill(1), Room::Length(width)]);
            assert(rooms.drop_last().drop_last() =~= seq![Room::Fill(1)]);
            assert(rooms.drop_last().drop_last().drop_last() =~= Seq::<Room>::empty());
            if size >= width {
                assert(all_fit(rooms, size));
            } else {
                assert(too_little(rooms, size));
            }
        }
    }
    parts[1]
}

/// Everything that is shown lies on the screen, and all but the errors within
/// its margin.
pub proof fn everything_is_on_the_screen(area: Area, screen: Screen)
    requires
        is_screen(area, screen),
        area.on_screen(),
    ensures
        screen.errors.within(area),
        screen.player.within(without_margin(area, 1)),
        screen.instructions.within(without_margin(area, 1)),
        screen.queue.within(without_margin(area, 1)),
        screen.navbar.within(without_margin(area, 1)),
        screen.history.within(without_margin(area, 1)),
{
    let (upper, right, left) = choose|upper: Area, right: Area, left: Area|
        screen_divided(area, upper, right, left, screen);
    let rows = seq![upper, screen.player, screen.instructions];
    assert(rows[0] == upper && rows[1] == screen.player && rows[2] == screen.instructions);
    let columns = seq![screen.queue, right];
    assert(columns[0] == screen.queue && columns[1] == right);
    let contents = seq![screen.navbar, screen.history];
    assert(contents[0] == screen.navbar && contents[1] == screen.history);
    let sides = seq![left, screen.errors];
    assert(sides[0] == left && sides[1] == screen.errors);
}

/// The rows of the upper part of the screen: those that the player and the
/// instructions leave, but at least five, as far as there are that many.
pub open spec fn upper_rows(height: int) -> int {
    if height >= 12 {
        height - 7
    } else if height >= 5 {
        5
    } else {
        height
    }
}

/// The rows of the navigation bar: three, as far as five are left for the history.
pub open spec fn navbar_rows(height: int) -> int {
    if height >= 8 {
        3
    } else if height >= 5 {
        height - 5
    } else {
        0
    }
}

/// The division of a screen.
pub open spec fn known_screen(area: Area) -> Screen {
    let inner = without_margin(area, 1);
    let upper_height = upper_rows(inner.height as int);
    let player_height = player_rows(inner.height - upper_height);
    let navbar_height = navbar_rows(upper_height);
    let queue_width = (inner.width * 20 + 50) / 100;
    let errors_left = (area.width * 40 + 50) / 100;
    Screen {
        navbar: Area {
            x: (inner.x + queue_width) as u16,
            y: inner.y,
            width: (inner.width - queue_width) as u16,
            height: navbar_height as u16,
        },
        queue: Area {
            x: inner.x,
            y: inner.y,
            width: queue_width as u16,
            height: upper_height as u16,
        },
        history: Area {
            x: (inner.x + queue_width) as u16,
            y: (inner.y + navbar_height) as u16,
            width: (inner.width - queue_width) as u16,
            height: (upper_height - navbar_height) as u16,
        },
        player: Area {
            x: inner.x,
            y: (inner.y + upper_height) as u16,
            width: inner.width,
            height: player_height as u16,
        },
        instructions: Area {
            x: inner.x,
            y: (inner.y + upper_height + player_height) as u16,
            width: inner.width,
            height: (inner.height - upper_height - player_height) as u16,
        },
        errors: Area {
            x: (area.x + errors_left) as u16,
            y: area.y,
            width: (area.width - errors_left) as u16,
            height: area.height,
        },
    }
}

/// The areas of every screen are exactly known.
pub proof fn the_screen_is_known(area: Area, screen: Screen)
    requires
        is_screen(area, screen),
        area.on_screen(),
    ensures
        screen == known_screen(area),
{
    let (upper, right, left) = choose|upper: Area, right: Area, left: Area|
        screen_divided(area, upper, right, left, screen);
    let inner = without_margin(area, 1);
    rows_are_known(inner, upper, screen.player, screen.instructions);
    let columns = seq![screen.queue, right];
    assert(columns[0] == screen.queue && columns[1] == right);
    assert(percentages(20) == percentages(20));
    contents_are_known(right, screen.navbar, screen.history);
    let sides = seq![left, screen.errors];
    assert(sides[0] == left && sides[1] == screen.errors);
}

/// How the upper part, the player and the instructions divide the rows.
proof fn rows_are_known(inner: Area, upper: Area, player: Area, instructions: Area)
    requires
        divided(inner, Axis::Down, screen_rooms(), seq![upper, player, instructions]),
        inner.on_screen(),
    ensures
        upper == (Area { height: upper_rows(inner.height as int) as u16, ..inner }),
        player == (Area {
            y: (inner.y + upper.height) as u16,
            height: player_rows(inner.height - upper.height) as u16,
            ..inner
        }),
        instructions == (Area {
            y: (inner.y + upper.height + player.height) as u16,
            height: (inner.height - upper.height - player.height) as u16,
            ..inner
        }),
{
    let rooms = screen_rooms();
    let size = inner.end(Axis::Down) - inner.start(Axis::Down);
    let parts = seq![upper, player, instructions];
    assert(parts[0] == upper && parts[1] == player && parts[2] == instructions);
    assert(wanted(rooms) == 12 && minimum(rooms) == 5) by {
        reveal_with_fuel(wanted, 4);
        reveal_with_fuel(minimum, 4);
        assert(rooms.drop_last() =~= seq![Room::Min(5), Room::Length(5)]);
        assert(rooms.drop_last().drop_last() =~= seq![Room::Min(5)]);
        assert(rooms.drop_last().drop_last().drop_last() =~= Seq::<Room>::empty());
    }
    assert(rooms[0] == Room::Min(5) && rooms[1] == Room::Length(5) && rooms[2] == Room::Length(2));
    if size >= 12 {
        assert(all_fit(rooms, size));
    } else if size >= 5 {
        assert(too_little(rooms, size));
    } else {
        assert(far_too_little(rooms, size, 0));
    }
}

/// How the navigation bar and the history divide the rows.
proof fn contents_are_known(right: Area, navbar: Area, history: Area)
    requires
        divided(right, Axis::Down, content_rooms(), seq![navbar, history]),
        right.on_screen(),
    ensures
        navbar == (Area { height: navbar_rows(right.height as int) as u16, ..right }),
        history == (Area {
            y: (right.y + navbar.height) as u16,
            height: (right.height - navbar.height) as u16,
            ..right
        }),
{
    let rooms = content_rooms();
    let size = right.end(Axis::Down) - right.start(Axis::Down);
    let parts = seq![navbar, history];
    assert(parts[0] == navbar && parts[1] == history);
    assert(wanted(rooms) == 8 && minimum(rooms) == 5) by {
        reveal_with_fuel(wanted, 3);
        reveal_with_fuel(minimum, 3);
        assert(rooms.drop_last() =~= seq![Room::Length(3)]);
        assert(rooms.drop_last().drop_last() =~= Seq::<Room>::empty());
    }
    assert(rooms[0] == Room::Length(3) && rooms[1] == Room::Min(5));
    if size >= 8 {
        assert(all_fit(rooms, size));
    } else if size >= 5 {
        assert(too_little(rooms, size));
    } else {
        assert(far_too_little(rooms, size, 1));
    }
}

/// On a screen that is high enough for everything, everything has what it asks for.
pub proof fn high_screens_have_room(area: Area, screen: Screen)
    requires
        is_screen(area, screen),
        area.on_screen(),
        area.width >= 2,
        area.height >= 17,
    ensures
        screen.navbar.height == 3,
        screen.player.height == 5,
        screen.instructions.height == 2,
        screen.queue.height == area.height - 9,
        screen.history.height == area.height - 12,
{
    the_screen_is_known(area, screen);
}

/// The lists are the last to give way: on all but the lowest screens they keep
/// five rows.
pub proof fn lists_keep_some_rows(area: Area, screen: Screen)
    requires
        is_screen(area, screen),
        area.on_screen(),
        area.width >= 2,
        area.height >= 7,
    ensures
        screen.queue.height >= 5,
        screen.history.height >= 5,
{
    the_screen_is_known(area, screen);
}

/// The parts of the screen lie within a margin of one, tile what is in it, and have
/// the sizes that they are meant to have: the queue a fifth of the width, rounded, the
/// errors three fifths of the whole.
pub proof fn the_screen_is_tiled(area: Area)
    requires
        area.on_screen(),
        area.width >= 2,
        area.height >= 2,
    ensures
        ({
            let screen = known_screen(area);
            let (x, y) = (area.x + 1, area.y + 1);
            let (width, height) = (area.width - 2, area.height - 2);
            let lists = screen.queue.height;
            // beside one another
            &&& screen.queue.x == x && screen.queue.y == y
            &&& screen.navbar.x == x + screen.queue.width && screen.navbar.y == y
            &&& screen.queue.width + screen.navbar.width == width
            &&& -50 < screen.queue.width * 100 - width * 20 <= 50
            &&& screen.history.x == screen.navbar.x
            &&& screen.history.width == screen.navbar.width
            // below one another
            &&& screen.history.y == y + screen.navbar.height
            &&& screen.navbar.height + screen.history.height == lists
            &&& screen.player.x == x && screen.player.y == y + lists
            &&& screen.player.width == width
            &&& screen.instructions.x == x && screen.instructions.width == width
            &&& screen.instructions.y == screen.player.y + screen.player.height
            &&& lists + screen.player.height + screen.instructions.height == height
            // the sizes
            &&& height >= 12 ==> screen.player.height == 5 && screen.instructions.height == 2
            &&& 5 <= height <= 12 ==> lists == 5
            &&& height <= 5 ==> lists == height
            &&& lists >= 8 ==> screen.navbar.height == 3
            &&& 5 <= lists <= 8 ==> screen.history.height == 5
            &&& lists <= 5 ==> screen.navbar.height == 0
            // the errors
            &&& screen.errors.y == area.y && screen.errors.height == area.height
            &&& screen.errors.x + screen.errors.width == area.x + area.width
            &&& -50 < (area.width - screen.errors.width) * 100 - area.width * 40 <= 50
        }),
{
}

/// Where the player and the instructions get too few rows, they get the same number,
/// the player one more if it does not come out even, until the instructions have two.
pub proof fn few_rows_are_shared(area: Area)
    requires
        area.on_screen(),
        area.width >= 2,
        7 <= area.height <= 14,
    ensures
        ({
            let player = known_screen(area).player.height;
            let instructions = known_screen(area).instructions.height;
            &&& player + instructions == area.height - 7
            &&& instructions < 2 ==> instructions <= player <= instructions + 1
            &&& player + instructions >= 4 ==> instructions == 2
        }),
{
}

/// What is centered has as much room on its left as on its right, or one column more;
/// its rows are those of the area.
pub proof fn centering_leaves_equal_room(area: Area, width: u16)
    requires
        area.on_screen(),
    ensures
        ({
            let middle = centered(area, width);
            let left = middle.x - area.x;
            let right = area.x + area.width - (middle.x + middle.width);
            &&& middle.y == area.y && middle.height == area.height
            &&& width <= area.width ==> middle.width == width && right <= left <= right + 1
            &&& width >= area.width ==> middle == area
        }),
{
}

/// The gauge of the player has the last row, if there are two; the text has the others.
pub proof fn the_gauge_has_the_last_row(height: int)
    requires
        0 <= height,
    ensures
        height >= 2 ==> text_rows(height) + 1 == height,
        height <= 1 ==> text_rows(height) == height,
{
}

/// What a border leaves: one column and one row less on each side, and nothing where
/// there are less than two.
pub proof fn borders_take_one_on_each_side(area: Area)
    requires
        area.on_screen(),
    ensures
        area.width >= 2 ==> bordered(area).x == area.x + 1 && bordered(area).width == area.width - 2,
        area.width < 2 ==> bordered(area).width == 0,
        area.height >= 2 ==> bordered(area).y == area.y + 1 && bordered(area).height == area.height
            - 2,
        area.height < 2 ==> bordered(area).height == 0,
{
}

/// On a screen without room for the margin nothing but errors has any room.
pub proof fn tiny_screens_are_empty(area: Area)
    requires
        area.width < 2 || area.height < 2,
    ensures
        ({
            let screen = known_screen(area);
            let nothing = Area { x: 0, y: 0, width: 0, height: 0 };
            &&& screen.queue == nothing
            &&& screen.navbar == nothing
            &&& screen.history == nothing
            &&& screen.player == nothing
            &&& screen.instructions == nothing
        }),
        area.on_screen() ==> {
            let errors = known_screen(area).errors;
            &&& errors.y == area.y && errors.height == area.height
            &&& errors.x + errors.width == area.x + area.width
            &&& -50 < (area.width - errors.width) * 100 - area.width * 40 <= 50
        },
{
}

} // verus!
