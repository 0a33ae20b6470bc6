//! Building blocks for the texts that are sent and shown.

use vstd::prelude::*;

verus! {

/// `String::push` of std: the character is added at the end of the text.
pub assume_specification[ String::push ](text: &mut String, c: char)
    ensures
        final(text)@ == old(text)@.push(c),
;

/// The Unicode property `White_Space`.
pub open spec fn is_white_space(c: char) -> bool {
    ||| '\u{9}' <= c <= '\u{d}'
    ||| c == ' '
    ||| c == '\u{85}'
    ||| c == '\u{a0}'
    ||| c == '\u{1680}'
    ||| '\u{2000}' <= c <= '\u{200a}'
    ||| c == '\u{2028}'
    ||| c == '\u{2029}'
    ||| c == '\u{202f}'
    ||| c == '\u{205f}'
    ||| c == '\u{3000}'
}

/// `text` without the white space at its two ends.
pub open spec fn trimmed(text: Seq<char>) -> Seq<char>
    decreases text.len(),
{
    if text.len() == 0 {
        text
    } else if is_white_space(text.first()) {
        trimmed(text.drop_first())
    } else if is_white_space(text.last()) {
        trimmed(text.drop_last())
    } else {
        text
    }
}

/// `str::trim` of std: the text without leading and trailing white space.
pub assume_specification[ str::trim ](text: &str) -> (part: &str)
    ensures
        part@ == trimmed(text@),
;

/// The decimal digit `d`.
pub open spec fn digit(d: int) -> char {
    (48 + d) as char
}

/// The decimal numeral of `n`, without leading zeros.
pub open spec fn decimal(n: int) -> Seq<char>
    decreases n,
{
    if n < 10 {
        seq![digit(n)]
    } else {
        decimal(n / 10).push(digit(n % 10))
    }
}

/// The decimal numeral of `n`, moved to the right end of a field of two
/// characters.
pub open spec fn decimal_field(n: int) -> Seq<char> {
    if 0 <= n < 10 {
        seq![' '] + decimal(n)
    } else {
        decimal(n)
    }
}

/// The parts one after the other, with `separator` between them.
pub open spec fn joined(parts: Seq<Seq<char>>, separator: Seq<char>) -> Seq<char>
    decreases parts.len(),
{
    if parts.len() == 0 {
        Seq::empty()
    } else if parts.len() == 1 {
        parts[0]
    } else {
        joined(parts.drop_last(), separator) + separator + parts.last()
    }
}

/// Adds the decimal numeral of `n` to `out`.
pub fn push_decimal(out: &mut String, n: u64)
    ensures
        final(out)@ == old(out)@ + decimal(n as int),
    decreases n,
{
    if n < 10 {
        out.push((48 + n as u8) as char);
        assert(out@ =~= old(out)@ + decimal(n as int));
    } else {
        push_decimal(out, n / 10);
        out.push((48 + (n % 10) as u8) as char);
        assert(out@ =~= old(out)@ + decimal(n as int));
    }
}

/// The decimal numeral of `n`.
pub fn decimal_text(n: u64) -> (text: String)
    ensures
        text@ == decimal(n as int),
{
    let mut text = String::new();
    push_decimal(&mut text, n);
    assert(text@ =~= decimal(n as int));
    text
}

/// The decimal numeral of `n` in a field of two characters.
pub fn decimal_field_text(n: u64) -> (text: String)
    ensures
        text@ == decimal_field(n as int),
{
    let mut text = String::new();
    if n < 10 {
        text.push(' ');
    }
    push_decimal(&mut text, n);
    assert(text@ =~= decimal_field(n as int));
    text
}

/// The two texts, one after the other.
pub fn concatenated(first: &str, second: &str) -> (text: String)
    ensures
        text@ == first@ + second@,
{
    let mut text = first.to_owned();
    text.append(second);
    text
}

/// A length of time in whole minutes, such as ` 3m`.
pub open spec fn minutes_field(ms: int) -> Seq<char> {
    decimal_field(ms / 60_000) + seq!['m']
}

/// Formats a number of milliseconds as whole minutes, the minutes taking at
/// least two characters.
pub fn format_ms(ms: u32) -> (text: String)
    ensures
        text@ == minutes_field(ms as int),
{
    let min: u32 = (ms / 1000) / 60;
    let mut text = decimal_field_text(min as u64);
    text.push('m');
    assert(text@ =~= minutes_field(ms as int));
    text
}

/// The number that decimal digits stand for.
pub open spec fn number_of(digits: Seq<char>) -> int
    decreases digits.len(),
{
    if digits.len() == 0 {
        0
    } else {
        number_of(digits.drop_last()) * 10 + (digits.last() as int - '0' as int)
    }
}

/// A numeral consists of digits, does not begin with a zero unless it is one, and
/// stands for its number.
pub proof fn numerals_can_be_read_back(n: int)
    requires
        0 <= n,
    ensures
        number_of(decimal(n)) == n,
        decimal(n).len() > 0,
        forall|i: int| 0 <= i < decimal(n).len() ==> '0' <= #[trigger] decimal(n)[i] <= '9',
        n < 10 ==> decimal(n).len() == 1,
        n > 0 ==> decimal(n)[0] != '0',
    decreases n,
{
    if n < 10 {
        assert(decimal(n).drop_last() =~= Seq::<char>::empty());
        assert(number_of(decimal(n).drop_last()) == 0);
        assert(decimal(n).last() == digit(n));
    } else {
        numerals_can_be_read_back(n / 10);
        assert(decimal(n).drop_last() =~= decimal(n / 10));
        assert(decimal(n).last() == digit(n % 10));
    }
}

/// A field holds its numeral at the right end, takes two characters at least, and
/// has nothing but blanks before it.
pub proof fn fields_end_with_their_numerals(n: int)
    requires
        0 <= n,
    ensures
        ({
            let field = decimal_field(n);
            let blanks = field.len() - decimal(n).len();
            &&& field.len() >= 2
            &&& field.skip(blanks) == decimal(n)
            &&& blanks > 0 ==> field.len() == 2
            &&& forall|i: int| 0 <= i < blanks ==> #[trigger] field[i] == ' '
        }),
{
    numerals_can_be_read_back(n);
    if n >= 10 {
        assert(decimal(n / 10).len() > 0) by {
            numerals_can_be_read_back(n / 10);
        }
    }
    assert(decimal_field(n).skip(decimal_field(n).len() - decimal(n).len()) =~= decimal(n));
}

/// A length of time is shown by the minutes that have passed in full.
pub proof fn full_minutes_are_shown(ms: int, minutes: int)
    requires
        0 <= minutes,
        minutes * 60_000 <= ms < (minutes + 1) * 60_000,
    ensures
        minutes_field(ms) == decimal_field(minutes).push('m'),
{
    assert(minutes_field(ms) =~= decimal_field(minutes).push('m'));
}

/// Joined parts: nothing for none, the part itself for one, and the separator
/// before every further one.
pub proof fn joining_one_more(parts: Seq<Seq<char>>, part: Seq<char>, separator: Seq<char>)
    ensures
        joined(Seq::empty(), separator) == Seq::<char>::empty(),
        joined(seq![part], separator) == part,
        parts.len() > 0 ==> joined(parts.push(part), separator) == joined(parts, separator)
            + separator + part,
{
    if parts.len() > 0 {
        assert(parts.push(part).drop_last() =~= parts);
    }
}

/// Trimming takes white space off both ends and nothing else.
pub proof fn trimming_unpacks(before: Seq<char>, text: Seq<char>, after: Seq<char>)
    requires
        forall|i: int| 0 <= i < before.len() ==> is_white_space(#[trigger] before[i]),
        forall|i: int| 0 <= i < after.len() ==> is_white_space(#[trigger] after[i]),
        text.len() > 0 ==> !is_white_space(text.first()) && !is_white_space(text.last()),
    ensures
        trimmed(before + text + after) == text,
    decreases before.len() + after.len(),
{
    let whole = before + text + after;
    if before.len() > 0 {
        assert(whole.first() == before[0]);
        assert(whole.drop_first() =~= before.drop_first() + text + after);
        trimming_unpacks(before.drop_first(), text, after);
    } else if text.len() == 0 {
        if after.len() > 0 {
            assert(whole.first() == after[0]);
            assert(whole.drop_first() =~= before + text + after.drop_first());
            trimming_unpacks(before, text, after.drop_first());
        } else {
            assert(whole =~= text);
        }
    } else {
        assert(whole.first() == text.first());
        if after.len() > 0 {
            assert(whole.last() == after.last());
            assert(whole.drop_last() =~= before + text + after.drop_last());
            trimming_unpacks(before, text, after.drop_last());
        } else {
            assert(whole =~= text);
        }
    }
}

} // verus!
