//! Queries in the addresses of web pages.

use crate::pairs::pair_views;
use url::Url;
use vstd::prelude::*;
use vstd::utf8::encode_utf8;

verus! {

/// What may be wrong with the text of a URL.
#[verifier::external_type_specification]
#[verifier::external_body]
pub struct ExParseError(url::ParseError);

/// The bytes that stand for themselves in a form.
pub open spec fn is_form_safe(byte: u8) -> bool {
    ||| 0x30 <= byte <= 0x39
    ||| 0x41 <= byte <= 0x5a
    ||| 0x61 <= byte <= 0x7a
    ||| byte == 0x2a
    ||| byte == 0x2d
    ||| byte == 0x2e
    ||| byte == 0x5f
}

/// The hexadecimal digit `d`, in upper case.
pub open spec fn hex_digit(d: int) -> char {
    if d < 10 {
        (0x30 + d) as char
    } else {
        (0x37 + d) as char
    }
}

/// A byte in the syntax `application/x-www-form-urlencoded`.
pub open spec fn form_byte(byte: u8) -> Seq<char> {
    if is_form_safe(byte) {
        seq![byte as char]
    } else if byte == 0x20 {
        seq!['+']
    } else {
        seq!['%', hex_digit(byte as int / 16), hex_digit(byte as int % 16)]
    }
}

/// Bytes in the syntax `application/x-www-form-urlencoded`.
pub open spec fn form_bytes(bytes: Seq<u8>) -> Seq<char>
    decreases bytes.len(),
{
    if bytes.len() == 0 {
        Seq::empty()
    } else {
        form_bytes(bytes.drop_last()) + form_byte(bytes.last())
    }
}

/// A name or a value in the syntax `application/x-www-form-urlencoded`.
pub open spec fn form_text(text: Seq<char>) -> Seq<char> {
    form_bytes(encode_utf8(text))
}

/// Named values in the syntax `application/x-www-form-urlencoded`.
pub open spec fn form_pairs(pairs: Seq<(Seq<char>, Seq<char>)>) -> Seq<char>
    decreases pairs.len(),
{
    if pairs.len() == 0 {
        Seq::empty()
    } else {
        let before = form_pairs(pairs.drop_last());
        let separator = if pairs.len() == 1 {
            Seq::empty()
        } else {
            seq!['&']
        };
        before + separator + form_text(pairs.last().0) + seq!['='] + form_text(pairs.last().1)
    }
}

pub open spec fn is_lower(c: char) -> bool {
    'a' <= c <= 'z'
}

/// `https://`, a domain of lower case letters with single dots between them,
/// and a path of one segment, lower case letters again.
pub open spec fn is_plain_address(text: Seq<char>, domain: Seq<char>, path: Seq<char>) -> bool {
    &&& text == "https://"@ + domain + "/"@ + path
    &&& text.len() <= 0xffff_ffff
    &&& 0 < domain.len()
    &&& is_lower(domain.first()) && is_lower(domain.last())
    &&& forall|i: int| 0 <= i < domain.len() ==> is_lower(domain[i]) || domain[i] == '.'
    &&& forall|i: int|
        0 < i < domain.len() && domain[i] == '.' ==> is_lower(#[trigger] domain[i - 1])
    &&& forall|i: int| 0 <= i < path.len() ==> is_lower(path[i])
}

/// `Url::parse_with_params` of url: a plain address is kept as it is; a
/// question mark and the named values, encoded for a form, follow it.
#[verifier::external_body]
pub(crate) fn address_with_query(address: &str, pairs: &Vec<(String, String)>) -> (text: String)
    requires
        exists|domain: Seq<char>, path: Seq<char>| is_plain_address(address@, domain, path),
    ensures
        text@ == address@ + "?"@ + form_pairs(pair_views(pairs@)),
{
    Url::parse_with_params(address, pairs).unwrap().to_string()
}

/// The named values in the query of a URL, decoded, or what is wrong with the
/// text of the URL.
pub uninterp spec fn url_query(text: Seq<char>) -> Result<
    Seq<(Seq<char>, Seq<char>)>,
    url::ParseError,
>;

/// `Url::parse` and `Url::query_pairs` of url: the named values in the query,
/// decoded, in their order, or the error of the parser. From the address that
/// Spotify returns to, named values that were encoded for a form come back as
/// they were.
#[verifier::external_body]
pub(crate) fn query_pairs(text: &str) -> (pairs: Result<Vec<(String, String)>, url::ParseError>)
    ensures
        match pairs {
            Ok(pairs) => url_query(text@) == Ok::<Seq<(Seq<char>, Seq<char>)>, url::ParseError>(
                pair_views(pairs@),
            ),
            Err(error) => url_query(text@) == Err::<
                Seq<(Seq<char>, Seq<char>)>,
                url::ParseError,
            >(error),
        },
        forall|sent: Seq<(Seq<char>, Seq<char>)>|
            text@ == "http://127.0.0.1/callback?"@ + #[trigger] form_pairs(sent) && text@.len()
                <= 0xffff_ffff ==> pairs is Ok && pair_views(pairs->Ok_0@) == sent,
{
    let url = Url::parse(text)?;
    Ok(url.query_pairs().into_owned().collect())
}

/// The characters that stand for themselves in a form.
pub open spec fn is_form_safe_char(c: char) -> bool {
    ||| '0' <= c <= '9'
    ||| 'A' <= c <= 'Z'
    ||| 'a' <= c <= 'z'
    ||| c == '*'
    ||| c == '-'
    ||| c == '.'
    ||| c == '_'
}

/// What consists of safe characters is the same in a form.
pub proof fn form_text_keeps_safe_characters(text: Seq<char>)
    requires
        forall|i: int| 0 <= i < text.len() ==> is_form_safe_char(#[trigger] text[i]),
    ensures
        form_text(text) == text,
{
    vstd::utf8::is_ascii_chars_encode_utf8(text);
    let bytes = encode_utf8(text);
    assert forall|i: int| 0 <= i < bytes.len() implies is_form_safe(#[trigger] bytes[i])
        && bytes[i] as char == text[i] by {
        assert(bytes[i] == text[i] as u8);
    }
    form_bytes_keeps_safe_bytes(bytes);
    assert(form_bytes(bytes) =~= text);
}

proof fn form_bytes_keeps_safe_bytes(bytes: Seq<u8>)
    requires
        forall|i: int| 0 <= i < bytes.len() ==> is_form_safe(#[trigger] bytes[i]),
    ensures
        form_bytes(bytes) =~= Seq::new(bytes.len(), |i: int| bytes[i] as char),
    decreases bytes.len(),
{
    if bytes.len() > 0 {
        form_bytes_keeps_safe_bytes(bytes.drop_last());
    }
}

/// A byte in a form stands for itself, for a blank, or is given by its number in
/// hexadecimal digits.
pub proof fn bytes_in_a_form(byte: u8)
    ensures
        form_byte(byte).len() == 1 || form_byte(byte).len() == 3,
        byte == 0x20 ==> form_byte(byte) == seq!['+'],
        is_form_safe(byte) ==> form_byte(byte) == seq![byte as char],
        !is_form_safe(byte) && byte != 0x20 ==> form_byte(byte).len() == 3 && form_byte(byte)[0]
            == '%',
{
}

/// Named values in a form: a name, an equals sign and a value, and an ampersand before
/// every further one.
pub proof fn one_more_value_in_a_form(
    pairs: Seq<(Seq<char>, Seq<char>)>,
    name: Seq<char>,
    value: Seq<char>,
)
    ensures
        form_pairs(Seq::empty()) == Seq::<char>::empty(),
        form_pairs(seq![(name, value)]) == form_text(name) + seq!['='] + form_text(value),
        pairs.len() > 0 ==> form_pairs(pairs.push((name, value))) == form_pairs(pairs) + seq!['&']
            + form_text(name) + seq!['='] + form_text(value),
{
    let one = seq![(name, value)];
    assert(one.drop_last() =~= Seq::<(Seq<char>, Seq<char>)>::empty());
    assert(form_pairs(one.drop_last()) =~= Seq::<char>::empty());
    assert(form_pairs(one) =~= form_text(name) + seq!['='] + form_text(value));
    if pairs.len() > 0 {
        assert(pairs.push((name, value)).drop_last() =~= pairs);
    }
}

} // verus!
