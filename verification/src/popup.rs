//! Where the errors are shown.

use crate::app::App;
use crate::layout::Area;
use crate::text::joined;
use ratatui::text::{Line, Span};
use ratatui::widgets::{Paragraph, Wrap};
use vstd::prelude::*;
use vstd::utf8::encode_utf8;

verus! {

/// The heading above every message.
pub const HEADING: &'static str = "Error";

/// The key that closes an error, and the rest of the word that it begins.
pub const CLOSE_KEY: &'static str = " c";

pub const CLOSE_REST: &'static str = "lose ";

/// An error that is shown. Only the first one can be closed.
#[derive(Debug, Clone)]
pub struct Popup {
    pub area: Area,
    pub heading: &'static str,
    pub message: String,
    pub closable: bool,
}

pub struct PopupView {
    pub area: Area,
    pub heading: Seq<char>,
    pub message: Seq<char>,
    pub closable: bool,
}

impl View for Popup {
    type V = PopupView;

    open spec fn view(&self) -> PopupView {
        PopupView {
            area: self.area,
            heading: self.heading@,
            message: self.message@,
            closable: self.closable,
        }
    }
}

/// The length of a message in bytes, as far as 16 bits hold it.
pub open spec fn text_width(message: Seq<char>) -> int {
    encode_utf8(message).len() as int % 0x1_0000
}

/// The width of a box: the message, the borders and a column of padding on
/// each side, as far as there is room.
pub open spec fn popup_width(message: Seq<char>, area: Area) -> int {
    if text_width(message) + 4 <= area.width {
        text_width(message) + 4
    } else {
        area.width as int
    }
}

/// The width that the borders leave for the message.
pub open spec fn content_width(message: Seq<char>, area: Area) -> int {
    if popup_width(message, area) >= 3 {
        popup_width(message, area) - 2
    } else {
        1
    }
}

/// Words of printable ASCII characters, each of which fits into a line.
pub open spec fn plain_words(words: Seq<Seq<char>>, width: u16) -> bool {
    &&& words.len() > 0
    &&& forall|i: int| 0 <= i < words.len() ==> 0 < (#[trigger] words[i]).len() <= width
    &&& forall|i: int, j: int|
        0 <= i < words.len() && 0 <= j < words[i].len() ==> '!' <= #[trigger] words[i][j] <= '~'
}

/// The lines that words take when each goes into the line of the one before it
/// if there is room for it and a blank, and how much of the last line is used.
pub open spec fn packed(words: Seq<Seq<char>>, width: u16) -> (int, int)
    decreases words.len(),
{
    if words.len() == 0 {
        (0, 0)
    } else {
        let (lines, used) = packed(words.drop_last(), width);
        let length = words.last().len();
        if lines > 0 && used + 1 + length <= width {
            (lines, used + 1 + length)
        } else {
            (lines + 1, length as int)
        }
    }
}

/// The number of lines that a text takes when it is wrapped at words to the
/// given width, blanks at the beginning of a line being kept.
pub uninterp spec fn wrapped_lines(text: Seq<char>, width: u16) -> nat;

/// `Paragraph::line_count` of ratatui, of a paragraph with a single line that is
/// wrapped without trimming: the number of lines that it takes to draw it. There
/// is at least one; plain words with single blanks between them are packed. Of
/// other texts nothing more is claimed. Long texts in wider paragraphs than are
/// asked for here may overflow ratatui's counting of columns: it adds up to four
/// times the width, though never more than the text has bytes.
#[verifier::external_body]
fn line_count(text: &str, width: u16) -> (lines: usize)
    requires
        width >= 1,
        width <= 16_383 || encode_utf8(text@).len() <= 0xffff,
    ensures
        lines == wrapped_lines(text@, width),
        lines >= 1,
        forall|words: Seq<Seq<char>>|
            plain_words(words, width) && text@ == #[trigger] joined(words, seq![' '])
                ==> lines == packed(words, width).0,
{
    Paragraph::new(Line::from(Span::raw(text))).wrap(Wrap { trim: false }).line_count(width)
}

/// The number of lines that the message takes within the borders.
pub open spec fn popup_lines(message: Seq<char>, area: Area) -> nat {
    wrapped_lines(message, content_width(message, area) as u16)
}

/// The message takes at least one line; if it consists of plain words with single
/// blanks between them, those are packed.
pub open spec fn is_wrapped(message: Seq<char>, area: Area) -> bool {
    let width = content_width(message, area) as u16;
    &&& popup_lines(message, area) >= 1
    &&& forall|words: Seq<Seq<char>>|
        plain_words(words, width) && message == #[trigger] joined(words, seq![' '])
            ==> popup_lines(message, area) == packed(words, width).0
}

/// The height of a box for a message of so many lines where `room` is left: the
/// message, the borders and a heading, as far as there is room.
pub open spec fn height_for(lines: nat, room: int) -> int {
    if lines + 3 <= room {
        lines as int + 3
    } else {
        room
    }
}

/// The height of a box below others of the height `above`.
pub open spec fn popup_height(message: Seq<char>, area: Area, above: int) -> int {
    height_for(popup_lines(message, area), area.height - above)
}

/// The height of a box for a message of so many lines where `room` is left.
pub fn box_height(lines: usize, room: u16) -> (height: u16)
    ensures
        height == height_for(lines as nat, room as int),
{
    if room >= 3 && lines <= (room - 3) as usize {
        lines as u16 + 3
    } else {
        room
    }
}

/// The height of the boxes together.
pub open spec fn stacked_height(messages: Seq<Seq<char>>, area: Area) -> int
    decreases messages.len(),
{
    if messages.len() == 0 {
        0
    } else {
        let above = stacked_height(messages.drop_last(), area);
        above + popup_height(messages.last(), area, above)
    }
}

/// The box of the `i`th error: at the right side of `area`, below the boxes of
/// those before it.
pub open spec fn popup(messages: Seq<Seq<char>>, area: Area, i: int) -> PopupView {
    let above = stacked_height(messages.take(i), area);
    PopupView {
        area: Area {
            x: (area.x + area.width - popup_width(messages[i], area)) as u16,
            y: (area.y + above) as u16,
            width: popup_width(messages[i], area) as u16,
            height: popup_height(messages[i], area, above) as u16,
        },
        heading: HEADING@,
        message: messages[i],
        closable: i == 0,
    }
}

/// The boxes of all errors.
pub open spec fn popups(messages: Seq<Seq<char>>, area: Area) -> Seq<PopupView> {
    Seq::new(messages.len(), |i: int| popup(messages, area, i))
}

/// The boxes by what they hold.
pub open spec fn popup_views(boxes: Seq<Popup>) -> Seq<PopupView> {
    boxes.map_values(|shown: Popup| shown@)
}

/// The widths of the messages can be counted with in an area of the given
/// width.
pub open spec fn widths_fit(messages: Seq<Seq<char>>, width: u16) -> bool {
    forall|i: int|
        0 <= i < messages.len() ==> text_width(#[trigger] messages[i]) + 4 <= u16::MAX && (width
            <= 16_385 || text_width(messages[i]) <= 16_381 || encode_utf8(messages[i]).len()
            <= 0xffff)
}

/// The boxes never take more height than there is.
pub proof fn stack_fits(messages: Seq<Seq<char>>, area: Area)
    ensures
        0 <= stacked_height(messages, area) <= area.height,
    decreases messages.len(),
{
    if messages.len() > 0 {
        stack_fits(messages.drop_last(), area);
    }
}

impl App {
    /// The boxes in which the errors are shown, one below the other.
    pub fn render_error(&self, area: Area) -> (boxes: Vec<Popup>)
        requires
            area.on_screen(),
            widths_fit(self@.errors, area.width),
        ensures
            popup_views(boxes@) == popups(self@.errors, area),
            forall|i: int| 0 <= i < self@.errors.len() ==> is_wrapped(#[trigger] self@.errors[i], area),
    {
        let ghost messages = self@.errors;
        let mut boxes: Vec<Popup> = Vec::new();
        let mut y: u16 = area.y;
        proof {
            assert(messages.take(0) =~= Seq::<Seq<char>>::empty());
        }
        for index in 0..self.error_list.len()
            invariant
                area.on_screen(),
                messages == self@.errors,
                widths_fit(messages, area.width),
                y == area.y + stacked_height(messages.take(index as int), area),
                boxes@.len() == index,
                forall|j: int|
                    0 <= j < index ==> (#[trigger] boxes@[j])@ == popup(messages, area, j),
                forall|j: int| 0 <= j < index ==> is_wrapped(#[trigger] messages[j], area),
        {
            let error: &String = &self.error_list[index];
            proof {
                assert(messages[index as int] == error@);
                stack_fits(messages.take(index as int), area);
                assert(messages.take(index + 1).drop_last() =~= messages.take(index as int));
                stack_fits(messages.take(index + 1), area);
            }
            let text_width: u16 = (error.as_str().as_bytes().len() % 0x1_0000) as u16;
            let width: u16 = if text_width + 4 < area.width {
                text_width + 4
            } else {
                area.width
            };
            let content_width: u16 = if width.saturating_sub(2) > 1 {
                width.saturating_sub(2)
            } else {
                1
            };
            let lines: usize = line_count(error.as_str(), content_width);
            let height: u16 = box_height(lines, area.height.saturating_sub(y - area.y));
            boxes.push(
                Popup {
                    area: Area { x: area.x + area.width - width, y, width, height },
                    heading: HEADING,
                    message: error.clone(),
                    closable: index == 0,
                },
            );
            y = y + height;
        }
        assert(popup_views(boxes@) =~= popups(messages, area));
        boxes
    }
}

/// The boxes lie within the area, at its right side, and each begins where the
/// one above it ends.
pub proof fn popups_are_stacked(messages: Seq<Seq<char>>, area: Area, i: int)
    requires
        area.on_screen(),
        0 <= i < messages.len(),
    ensures
        ({
            let shown = popup(messages, area, i).area;
            &&& shown.within(area)
            &&& shown.x + shown.width == area.x + area.width
            &&& i == 0 ==> shown.y == area.y
            &&& i > 0 ==> {
                let above = popup(messages, area, i - 1).area;
                shown.y == above.y + above.height
            }
        }),
{
    stack_fits(messages.take(i), area);
    if i == 0 {
        assert(messages.take(0) =~= Seq::<Seq<char>>::empty());
    } else {
        stack_fits(messages.take(i - 1), area);
        assert(messages.take(i).drop_last() =~= messages.take(i - 1));
    }
}

/// Every error has its box, in the order in which they came; the oldest one is
/// the one that can be closed.
pub proof fn every_error_is_shown(messages: Seq<Seq<char>>, area: Area)
    ensures
        popups(messages, area).len() == messages.len(),
        forall|i: int|
            0 <= i < messages.len() ==> (#[trigger] popups(messages, area)[i]).message
                == messages[i] && popups(messages, area)[i].heading == "Error"@,
        forall|i: int|
            0 <= i < messages.len() ==> ((#[trigger] popups(messages, area)[i]).closable <==> i
                == 0),
{
}

/// As long as there is room, a box is as high as its wrapped message, its heading
/// and its borders.
pub proof fn messages_are_shown_whole(messages: Seq<Seq<char>>, area: Area, i: int)
    requires
        area.on_screen(),
        0 <= i < messages.len(),
    ensures
        stacked_height(messages.take(i), area) + popup_lines(messages[i], area) + 3 <= area.height
            ==> popup(messages, area, i).area.height == popup_lines(messages[i], area) + 3,
{
    stack_fits(messages.take(i), area);
}

/// Packed words take no more lines than there are words, and what the last line
/// holds fits into it.
pub proof fn packing_words(words: Seq<Seq<char>>, width: u16)
    requires
        plain_words(words, width),
    ensures
        1 <= packed(words, width).0 <= words.len(),
        0 < packed(words, width).1 <= width,
    decreases words.len(),
{
    reveal_with_fuel(packed, 2);
    let before = words.drop_last();
    assert(words.last() == words[words.len() - 1]);
    if before.len() > 0 {
        assert forall|i: int, j: int|
            0 <= i < before.len() && 0 <= j < before[i].len() implies '!' <= #[trigger] before[i][j]
            <= '~' by {
            assert(words[i][j] == before[i][j]);
        }
        packing_words(before, width);
    }
}

/// A box is as wide as the message with two columns on each side, or as the area if
/// that is narrower. The message is wrapped to what the borders leave.
pub proof fn popups_are_as_wide_as_they_need(messages: Seq<Seq<char>>, area: Area, i: int)
    requires
        area.on_screen(),
        0 <= i < messages.len(),
        encode_utf8(messages[i]).len() <= 65_531,
    ensures
        ({
            let bytes = encode_utf8(messages[i]).len();
            let width = popup(messages, area, i).area.width;
            &&& bytes + 4 <= area.width ==> width == bytes + 4
            &&& bytes + 4 >= area.width ==> width == area.width
            &&& width >= 3 ==> popup_lines(messages[i], area) == wrapped_lines(
                messages[i],
                (width - 2) as u16,
            )
            &&& width < 3 ==> popup_lines(messages[i], area) == wrapped_lines(messages[i], 1)
        }),
{
}

/// Of a message that is longer than 16 bits can tell, what they tell counts.
pub proof fn long_messages_wrap(message: Seq<char>, area: Area)
    ensures
        0 <= text_width(message) < 0x1_0000,
        (encode_utf8(message).len() - text_width(message)) % 0x1_0000 == 0,
{
}

/// A box is as high as its lines and three more, or as what the boxes above it leave.
pub proof fn popups_are_as_high_as_they_need(messages: Seq<Seq<char>>, area: Area, i: int)
    requires
        area.on_screen(),
        0 <= i < messages.len(),
    ensures
        ({
            let shown = popup(messages, area, i).area;
            let lines = popup_lines(messages[i], area);
            let left = area.y + area.height - shown.y;
            &&& lines + 3 <= left ==> shown.height == lines + 3
            &&& lines + 3 >= left ==> shown.height == left
        }),
{
    stack_fits(messages.take(i), area);
}

/// The height of a box by the lines of its message and the room that is left.
pub proof fn heights_of_boxes(lines: nat, room: int)
    ensures
        lines + 3 <= room ==> height_for(lines, room) == lines + 3,
        lines + 3 >= room ==> height_for(lines, room) == room,
{
}

/// The word that offers to close an error, and the heading.
pub proof fn fixed_words()
    ensures
        HEADING@ == "Error"@,
        CLOSE_KEY@ + CLOSE_REST@ == " close "@,
        CLOSE_KEY@ == " c"@,
{
    reveal_strlit(" c");
    reveal_strlit("lose ");
    reveal_strlit(" close ");
    assert(CLOSE_KEY@ + CLOSE_REST@ =~= " close "@);
}

/// Nothing of a box is left out of its view.
pub proof fn popups_keep_their_parts(shown: Popup)
    ensures
        shown@.area == shown.area,
        shown@.heading == shown.heading@,
        shown@.message == shown.message@,
        shown@.closable == shown.closable,
{
}

/// The boxes are those of the errors, each with its place among them.
pub proof fn boxes_go_with_their_errors(messages: Seq<Seq<char>>, area: Area, boxes: Seq<Popup>)
    ensures
        popups(messages, area).len() == messages.len(),
        forall|i: int|
            0 <= i < messages.len() ==> #[trigger] popups(messages, area)[i] == popup(
                messages,
                area,
                i,
            ),
        popup_views(boxes).len() == boxes.len(),
        forall|i: int| 0 <= i < boxes.len() ==> #[trigger] popup_views(boxes)[i] == boxes[i]@,
{
}

} // verus!
