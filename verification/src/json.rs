//! Texts in JSON.

use vstd::prelude::*;

verus! {

/// The hexadecimal digit `d`, in lower case.
pub open spec fn lower_hex_digit(d: int) -> char {
    if d < 10 {
        (0x30 + d) as char
    } else {
        (0x57 + d) as char
    }
}

/// A character within a JSON string.
pub open spec fn json_char(c: char) -> Seq<char> {
    if c == '"' {
        seq!['\\', '"']
    } else if c == '\\' {
        seq!['\\', '\\']
    } else if c == '\u{8}' {
        seq!['\\', 'b']
    } else if c == '\u{9}' {
        seq!['\\', 't']
    } else if c == '\u{a}' {
        seq!['\\', 'n']
    } else if c == '\u{c}' {
        seq!['\\', 'f']
    } else if c == '\u{d}' {
        seq!['\\', 'r']
    } else if c <= '\u{1f}' {
        seq![
            '\\',
            'u',
            '0',
            '0',
            lower_hex_digit(c as int / 16),
            lower_hex_digit(c as int % 16),
        ]
    } else {
        seq![c]
    }
}

/// Characters within a JSON string.
pub open spec fn json_chars(text: Seq<char>) -> Seq<char>
    decreases text.len(),
{
    if text.len() == 0 {
        Seq::empty()
    } else {
        json_char(text.first()) + json_chars(text.drop_first())
    }
}

/// A text as a JSON string.
pub open spec fn json_string(text: Seq<char>) -> Seq<char> {
    seq!['"'] + json_chars(text) + seq!['"']
}

/// `serde_json::to_string` of a text: a JSON string, in which nothing is
/// escaped but quotation marks, backslashes and the control characters of
/// ASCII below the blank.
#[verifier::external_body]
pub(crate) fn quoted(text: &str) -> (json: String)
    ensures
        json@ == json_string(text@),
{
    serde_json::to_string(text).unwrap()
}

/// Two characters that begin the same text are the same.
proof fn same_first_character(c: char, d: char, after_c: Seq<char>, after_d: Seq<char>)
    requires
        json_char(c) + after_c == json_char(d) + after_d,
    ensures
        c == d,
        after_c == after_d,
{
    let whole = json_char(c) + after_c;
    assert(whole == json_char(d) + after_d);
    assert forall|i: int| 0 <= i < json_char(c).len() implies whole[i] == json_char(c)[i] by {}
    assert forall|i: int| 0 <= i < json_char(d).len() implies whole[i] == json_char(d)[i] by {}
    assert(whole[0] == json_char(c)[0] && whole[0] == json_char(d)[0]);
    if whole[0] == '\\' {
        assert(whole[1] == json_char(c)[1] && whole[1] == json_char(d)[1]);
        if whole[1] == 'u' {
            assert(whole[4] == json_char(c)[4] && whole[4] == json_char(d)[4]);
            assert(whole[5] == json_char(c)[5] && whole[5] == json_char(d)[5]);
        }
    }
    assert(c == d);
    assert(after_c =~= whole.skip(json_char(c).len() as int));
    assert(after_d =~= whole.skip(json_char(d).len() as int));
}

proof fn same_characters(first: Seq<char>, second: Seq<char>)
    requires
        json_chars(first) == json_chars(second),
    ensures
        first == second,
    decreases first.len(),
{
    if first.len() == 0 {
        assert(second.len() == 0) by {
            if second.len() > 0 {
                assert(json_chars(second).len() > 0);
            }
        }
        assert(first =~= second);
    } else if second.len() == 0 {
        assert(json_chars(first).len() > 0);
    } else {
        same_first_character(
            first.first(),
            second.first(),
            json_chars(first.drop_first()),
            json_chars(second.drop_first()),
        );
        same_characters(first.drop_first(), second.drop_first());
        assert(first =~= seq![first.first()] + first.drop_first());
        assert(second =~= seq![second.first()] + second.drop_first());
    }
}

/// A JSON string stands for one text only.
pub proof fn json_strings_are_unambiguous(first: Seq<char>, second: Seq<char>)
    requires
        json_string(first) == json_string(second),
    ensures
        first == second,
{
    let inside = |text: Seq<char>| json_string(text).drop_first().drop_last();
    assert(inside(first) =~= json_chars(first));
    assert(inside(second) =~= json_chars(second));
    same_characters(first, second);
}

/// Where a JSON string ends is unambiguous too: texts that begin with a string, in
/// full, begin with the same string and go on in the same way.
pub proof fn json_strings_end_where_they_end(
    first: Seq<char>,
    second: Seq<char>,
    after_first: Seq<char>,
    after_second: Seq<char>,
)
    requires
        json_string(first) + after_first == json_string(second) + after_second,
    ensures
        first == second,
        after_first == after_second,
{
    let quote = seq!['"'];
    let rest_first = json_chars(first) + (quote + after_first);
    let rest_second = json_chars(second) + (quote + after_second);
    let whole = json_string(first) + after_first;
    assert(whole == json_string(second) + after_second);
    assert(whole.drop_first() =~= rest_first);
    assert(whole.drop_first() =~= rest_second);
    same_until_the_quote(first, second, after_first, after_second);
}

proof fn same_until_the_quote(
    first: Seq<char>,
    second: Seq<char>,
    after_first: Seq<char>,
    after_second: Seq<char>,
)
    requires
        json_chars(first) + (seq!['"'] + after_first) == json_chars(second) + (seq!['"']
            + after_second),
    ensures
        first == second,
        after_first == after_second,
    decreases first.len(),
{
    let whole = json_chars(first) + (seq!['"'] + after_first);
    assert(whole == json_chars(second) + (seq!['"'] + after_second));
    if first.len() == 0 && second.len() == 0 {
        assert(first =~= second);
        assert(whole.drop_first() =~= after_first);
        assert(whole.drop_first() =~= after_second);
    } else if first.len() == 0 {
        assert(whole[0] == '"');
        assert(whole[0] == json_char(second.first())[0]);
    } else if second.len() == 0 {
        assert(whole[0] == '"');
        assert(whole[0] == json_char(first.first())[0]);
    } else {
        let tail_first = json_chars(first.drop_first()) + (seq!['"'] + after_first);
        let tail_second = json_chars(second.drop_first()) + (seq!['"'] + after_second);
        assert(whole =~= json_char(first.first()) + tail_first);
        assert(whole =~= json_char(second.first()) + tail_second);
        same_first_character(first.first(), second.first(), tail_first, tail_second);
        same_until_the_quote(first.drop_first(), second.drop_first(), after_first, after_second);
        assert(first =~= seq![first.first()] + first.drop_first());
        assert(second =~= seq![second.first()] + second.drop_first());
    }
}

/// Characters that need no escape stand in a JSON string as they are.
pub proof fn json_keeps_plain_text(text: Seq<char>)
    requires
        forall|i: int|
            0 <= i < text.len() ==> ' ' <= #[trigger] text[i] && text[i] != '"' && text[i] != '\\',
    ensures
        json_string(text) == seq!['"'] + text + seq!['"'],
{
    plain_chars(text);
}

proof fn plain_chars(text: Seq<char>)
    requires
        forall|i: int|
            0 <= i < text.len() ==> ' ' <= #[trigger] text[i] && text[i] != '"' && text[i] != '\\',
    ensures
        json_chars(text) == text,
    decreases text.len(),
{
    if text.len() > 0 {
        assert forall|i: int| 0 <= i < text.drop_first().len() implies ' '
            <= #[trigger] text.drop_first()[i] && text.drop_first()[i] != '"'
            && text.drop_first()[i] != '\\' by {
            assert(text.drop_first()[i] == text[i + 1]);
        }
        plain_chars(text.drop_first());
        assert(text.first() == text[0]);
        assert(json_chars(text) =~= text);
    } else {
        assert(json_chars(text) =~= text);
    }
}

} // verus!
