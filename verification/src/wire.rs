//! The crate's trusted edge: the few calls into the JSON and URL
//! libraries that the request pipeline relies on, each behind a wrapper
//! whose contract states exactly what the callee computes, together with
//! the specification functions those contracts are written in.
use vstd::prelude::*;
use vstd::utf8::encode_utf8;

verus! {

/// Upper-case hexadecimal digit for `d` in `0..16`.
pub open spec fn hex_upper(d: int) -> char {
    seq![
        '0', '1', '2', '3', '4', '5', '6', '7', '8', '9', 'A', 'B', 'C', 'D', 'E', 'F',
    ][d]
}

/// Lower-case hexadecimal digit for `d` in `0..16`.
pub open spec fn hex_lower(d: int) -> char {
    seq![
        '0', '1', '2', '3', '4', '5', '6', '7', '8', '9', 'a', 'b', 'c', 'd', 'e', 'f',
    ][d]
}

/// The three characters of a percent escape, upper-case, e.g. `%2F`.
pub open spec fn percent_byte(b: u8) -> Seq<char> {
    seq!['%', hex_upper(b as int / 16), hex_upper(b as int % 16)]
}

/// Bytes a path segment keeps verbatim: printable ASCII outside the
/// reserved set (space, `"`, `#`, `<`, `>`, backtick, `?`, `{`, `}`,
/// `%`, `/`).
pub open spec fn path_segment_kept(b: u8) -> bool {
    &&& 0x20 < b < 0x7F
    &&& b != 0x22
    &&& b != 0x23
    &&& b != 0x3C
    &&& b != 0x3E
    &&& b != 0x60
    &&& b != 0x3F
    &&& b != 0x7B
    &&& b != 0x7D
    &&& b != 0x25
    &&& b != 0x2F
}

/// Percent-encoding of one UTF-8 byte of a path segment.
pub open spec fn path_segment_byte(b: u8) -> Seq<char> {
    if path_segment_kept(b) {
        seq![b as char]
    } else {
        percent_byte(b)
    }
}

/// Percent-encoding of a byte string at path-segment level.
pub open spec fn path_segment_bytes(bs: Seq<u8>) -> Seq<char>
    decreases bs.len(),
{
    if bs.len() == 0 {
        Seq::empty()
    } else {
        path_segment_byte(bs[0]) + path_segment_bytes(bs.drop_first())
    }
}

/// Percent-encoding of a string at path-segment level, byte-wise over
/// its UTF-8 encoding.
pub open spec fn escaped(s: Seq<char>) -> Seq<char> {
    path_segment_bytes(encode_utf8(s))
}

/// Bytes the form-urlencoded serializer keeps verbatim:
/// `*`, `-`, `.`, `_` and ASCII alphanumerics.
pub open spec fn form_kept(b: u8) -> bool {
    ||| b == 0x2A
    ||| b == 0x2D
    ||| b == 0x2E
    ||| 0x30 <= b <= 0x39
    ||| 0x41 <= b <= 0x5A
    ||| b == 0x5F
    ||| 0x61 <= b <= 0x7A
}

/// Form-urlencoding of one UTF-8 byte: kept, `+` for space, or a
/// percent escape.
pub open spec fn form_byte(b: u8) -> Seq<char> {
    if form_kept(b) {
        seq![b as char]
    } else if b == 0x20 {
        seq!['+']
    } else {
        percent_byte(b)
    }
}

/// Form-urlencoding of a byte string.
pub open spec fn form_bytes(bs: Seq<u8>) -> Seq<char>
    decreases bs.len(),
{
    if bs.len() == 0 {
        Seq::empty()
    } else {
        form_byte(bs[0]) + form_bytes(bs.drop_first())
    }
}

/// Form-urlencoding of one string, byte-wise over its UTF-8 encoding.
pub open spec fn form_component(s: Seq<char>) -> Seq<char> {
    form_bytes(encode_utf8(s))
}

/// One serialized `key=value` pair.
pub open spec fn form_pair(p: (Seq<char>, Seq<char>)) -> Seq<char> {
    form_component(p.0) + seq!['='] + form_component(p.1)
}

/// The pairs serialized in application/x-www-form-urlencoded form,
/// joined with `&`.
pub open spec fn form_pairs(ps: Seq<(Seq<char>, Seq<char>)>) -> Seq<char>
    decreases ps.len(),
{
    if ps.len() == 0 {
        Seq::empty()
    } else if ps.len() == 1 {
        form_pair(ps[0])
    } else {
        form_pair(ps[0]) + seq!['&'] + form_pairs(ps.drop_first())
    }
}

/// JSON escape of one character, as serde_json writes it: `"` and `\`
/// get a backslash, the five short control escapes are used where they
/// exist, other control characters become `\u00xy` with lower-case hex,
/// and everything else is kept verbatim.
pub open spec fn json_escape_char(c: char) -> Seq<char> {
    if c == '"' {
        seq!['\\', '"']
    } else if c == '\\' {
        seq!['\\', '\\']
    } else if c == '\u{8}' {
        seq!['\\', 'b']
    } else if c == '\t' {
        seq!['\\', 't']
    } else if c == '\n' {
        seq!['\\', 'n']
    } else if c == '\u{c}' {
        seq!['\\', 'f']
    } else if c == '\r' {
        seq!['\\', 'r']
    } else if (c as u32) < 0x20 {
        seq!['\\', 'u', '0', '0', hex_lower((c as u32) as int / 16), hex_lower((c as u32) as int % 16)]
    } else {
        seq![c]
    }
}

/// JSON escape of a whole string body.
pub open spec fn json_escaped(s: Seq<char>) -> Seq<char>
    decreases s.len(),
{
    if s.len() == 0 {
        Seq::empty()
    } else {
        json_escape_char(s[0]) + json_escaped(s.drop_first())
    }
}

/// A JSON string literal: the escaped body between double quotes.
pub open spec fn json_quoted(s: Seq<char>) -> Seq<char> {
    seq!['"'] + json_escaped(s) + seq!['"']
}

/// The string held by `key` in the JSON object that `body` decodes to,
/// if `body` is well-formed JSON, an object, holds `key`, and that
/// member is a string; nothing otherwise. Left uninterpreted: it stands
/// for what the JSON library computes, which is a function of the bytes
/// and the key alone.
pub uninterp spec fn json_str_field(body: Seq<u8>, key: Seq<char>) -> Option<Seq<char>>;

/// Whether `s` parses as an absolute URL. Left uninterpreted: it stands
/// for the URL library's parser, a function of the string alone.
pub uninterp spec fn uri_ok(s: Seq<char>) -> bool;

/// Relies on serde_json::from_slice, serde_json::Value::get and
/// serde_json::Value::as_str: extracts the string member `key` of the
/// JSON object in `body`, or `None` when `body` is not such an object.
#[verifier::external_body]
pub(crate) fn json_string_field(body: &Vec<u8>, key: &str) -> (r: Option<String>)
    ensures
        match r {
            Some(s) => json_str_field(body@, key@) == Some(s@),
            None => json_str_field(body@, key@) is None,
        },
{
    let v: serde_json::Value = match serde_json::from_slice(body.as_slice()) {
        Ok(v) => v,
        Err(_) => return None,
    };
    match v.get(key) {
        Some(member) => member.as_str().map(|s| s.to_string()),
        None => None,
    }
}

/// Relies on serde_json::to_string for &str, which writes the quoted,
/// escaped JSON string literal and cannot fail on a string value.
#[verifier::external_body]
pub(crate) fn json_quote(s: &str) -> (r: String)
    ensures
        r@ == json_quoted(s@),
{
    serde_json::to_string(s).unwrap()
}

/// Relies on url::form_urlencoded::Serializer: serializes the pairs in
/// application/x-www-form-urlencoded form, joined with `&`.
#[verifier::external_body]
pub(crate) fn form_encode(pairs: &Vec<(String, String)>) -> (r: String)
    ensures
        r@ == form_pairs(pairs.deep_view()),
{
    url::form_urlencoded::Serializer::new(String::new()).extend_pairs(pairs.iter()).finish()
}

/// Relies on url::percent_encoding::utf8_percent_encode with the
/// path-segment encode set: percent-encodes `raw` for use as one path
/// segment.
#[verifier::external_body]
pub(crate) fn escape(raw: &str) -> (r: String)
    ensures
        r@ == escaped(raw@),
{
    url::percent_encoding::utf8_percent_encode(
        raw,
        url::percent_encoding::PATH_SEGMENT_ENCODE_SET,
    ).to_string()
}

/// Relies on url::Url::parse: whether `s` is a valid absolute URL.
#[verifier::external_body]
pub(crate) fn uri_parses(s: &str) -> (r: bool)
    ensures
        r == uri_ok(s@),
{
    url::Url::parse(s).is_ok()
}

} // verus!
