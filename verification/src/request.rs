//! The one request of a run: where it goes and what it asks.

use crate::config::{Command, CommandView, Config, ConfigView};
use crate::text::digit_char;
use vstd::prelude::*;
use vstd::string::*;
use vstd::utf8::{encode_utf8, is_ascii_chars, is_ascii_chars_encode_utf8};

verus! {

/// A `GET` request: an address, and the parameters of its query in order,
/// each a name and a value, neither encoded yet.
#[derive(Clone, Debug, PartialEq, Eq)]
pub struct ApiRequest {
    pub url: String,
    pub query: Vec<(String, String)>,
}

/// What an [`ApiRequest`] holds.
pub struct ApiRequestView {
    pub url: Seq<char>,
    pub query: Seq<(Seq<char>, Seq<char>)>,
}

impl View for ApiRequest {
    type V = ApiRequestView;

    open spec fn view(&self) -> ApiRequestView {
        ApiRequestView {
            url: self.url@,
            query: self.query@.map_values(|p: (String, String)| (p.0@, p.1@)),
        }
    }
}

/// The address that a keyword search is sent to.
pub open spec fn search_url() -> Seq<char> {
    "https://api.waqi.info/search/"@
}

/// The address of a station's feed: the station stands in the path as it
/// is given.
pub open spec fn feed_url(station: Seq<char>) -> Seq<char> {
    "https://api.waqi.info/feed/"@ + station + "/"@
}

/// The request of a keyword search.
pub open spec fn search_request(token: Seq<char>, term: Seq<char>) -> ApiRequestView {
    ApiRequestView { url: search_url(), query: seq![("token"@, token), ("keyword"@, term)] }
}

/// The request of a station's feed.
pub open spec fn feed_request(token: Seq<char>, station: Seq<char>) -> ApiRequestView {
    ApiRequestView { url: feed_url(station), query: seq![("token"@, token)] }
}

/// Whether `c` may stand for itself in one segment of a path: a letter or
/// digit of ASCII, or one of ``-._~!$&'()*+,;=:@``.
pub open spec fn is_segment_char(c: char) -> bool {
    ('a' <= c && c <= 'z') || ('A' <= c && c <= 'Z') || ('0' <= c && c <= '9') || c == '-' || c
        == '.' || c == '_' || c == '~' || c == '!' || c == '$' || c == '&' || c == '\'' || c == '('
        || c == ')' || c == '*' || c == '+' || c == ',' || c == ';' || c == '=' || c == ':' || c
        == '@'
}

/// Whether the byte is the code of a character that may stand for itself
/// in a segment.
pub open spec fn is_segment_byte(b: u8) -> bool {
    is_segment_char(b as char)
}

/// The upper-case hexadecimal digit for `d`.
pub open spec fn hex_char(d: nat) -> char
    recommends
        d < 16,
{
    if d < 10 {
        digit_char(d)
    } else if d == 10 {
        'A'
    } else if d == 11 {
        'B'
    } else if d == 12 {
        'C'
    } else if d == 13 {
        'D'
    } else if d == 14 {
        'E'
    } else {
        'F'
    }
}

/// One byte, escaped: itself where it may stand in a segment, else `%`
/// and its two hexadecimal digits.
pub open spec fn escaped_byte(b: u8) -> Seq<char> {
    if is_segment_byte(b) {
        seq![b as char]
    } else {
        seq!['%', hex_char((b / 16) as nat), hex_char((b % 16) as nat)]
    }
}

/// A sequence of bytes, escaped byte by byte.
pub open spec fn escaped_bytes(bytes: Seq<u8>) -> Seq<char>
    decreases bytes.len(),
{
    if bytes.len() == 0 {
        Seq::empty()
    } else {
        escaped_bytes(bytes.drop_last()) + escaped_byte(bytes.last())
    }
}

/// A text, escaped for use as one segment of a path: the bytes of its
/// UTF-8 encoding, escaped.
pub open spec fn escaped(text: Seq<char>) -> Seq<char> {
    escaped_bytes(encode_utf8(text))
}

/// Whether every character of `text` may stand for itself in a segment.
pub open spec fn is_plain_segment(text: Seq<char>) -> bool {
    forall|i: int| 0 <= i < text.len() ==> is_segment_char(#[trigger] text[i])
}

/// Whether `text` can be put into a path as one segment and stay one:
/// every character stands for itself or belongs to an escape.
pub open spec fn is_safe_segment(text: Seq<char>) -> bool {
    forall|i: int| 0 <= i < text.len() ==> is_segment_char(#[trigger] text[i]) || text[i] == '%'
}

/// The request that a configuration calls for. The name of a station is
/// escaped, so that whatever it holds it stays one segment of the path.
pub open spec fn request_of(config: ConfigView) -> ApiRequestView {
    match config.command {
        CommandView::Search { search_term } => search_request(config.api_token, search_term),
        CommandView::Info { station_name, .. } => feed_request(
            config.api_token,
            escaped(station_name),
        ),
    }
}

/// Calls `String::push` of std. Claimed, not proved: the character is
/// appended to the text.
#[verifier::external_body]
fn push_char(text: &mut String, c: char)
    ensures
        final(text)@ == old(text)@.push(c),
{
    text.push(c);
}

fn hex_text(d: u8) -> (text: &'static str)
    requires
        d < 16,
    ensures
        text@ == seq![hex_char(d as nat)],
{
    proof {
        reveal_strlit("0");
        reveal_strlit("1");
        reveal_strlit("2");
        reveal_strlit("3");
        reveal_strlit("4");
        reveal_strlit("5");
        reveal_strlit("6");
        reveal_strlit("7");
        reveal_strlit("8");
        reveal_strlit("9");
        reveal_strlit("A");
        reveal_strlit("B");
        reveal_strlit("C");
        reveal_strlit("D");
        reveal_strlit("E");
        reveal_strlit("F");
    }
    let text = if d == 0 {
        "0"
    } else if d == 1 {
        "1"
    } else if d == 2 {
        "2"
    } else if d == 3 {
        "3"
    } else if d == 4 {
        "4"
    } else if d == 5 {
        "5"
    } else if d == 6 {
        "6"
    } else if d == 7 {
        "7"
    } else if d == 8 {
        "8"
    } else if d == 9 {
        "9"
    } else if d == 10 {
        "A"
    } else if d == 11 {
        "B"
    } else if d == 12 {
        "C"
    } else if d == 13 {
        "D"
    } else if d == 14 {
        "E"
    } else {
        "F"
    };
    assert(text@ =~= seq![hex_char(d as nat)]);
    text
}

fn keeps_byte(b: u8) -> (keep: bool)
    ensures
        keep == is_segment_byte(b),
{
    let c = b as char;
    ('a' <= c && c <= 'z') || ('A' <= c && c <= 'Z') || ('0' <= c && c <= '9') || c == '-' || c
        == '.' || c == '_' || c == '~' || c == '!' || c == '$' || c == '&' || c == '\'' || c == '('
        || c == ')' || c == '*' || c == '+' || c == ',' || c == ';' || c == '=' || c == ':' || c
        == '@'
}

/// Escapes a text for use as one segment of a path.
///
/// The outcome holds nothing that would end the segment or start a query
/// or a fragment, and a text that needs no escape comes back unchanged.
pub fn escape_path_segment(segment: &str) -> (out: String)
    ensures
        out@ == escaped(segment@),
        is_safe_segment(out@),
        is_plain_segment(segment@) ==> out@ == segment@,
{
    let bytes = segment.as_bytes();
    let mut out = String::new();
    let mut i: usize = 0;
    while i < bytes.len()
        invariant
            0 <= i <= bytes.len(),
            bytes@ == encode_utf8(segment@),
            out@ == escaped_bytes(bytes@.take(i as int)),
            is_safe_segment(out@),
        decreases bytes.len() - i,
    {
        let b: u8 = bytes[i];
        proof {
            assert(bytes@.take(i + 1).drop_last() =~= bytes@.take(i as int));
            assert(bytes@.take(i + 1).last() == b);
        }
        if keeps_byte(b) {
            push_char(&mut out, b as char);
        } else {
            out.append("%");
            out.append(hex_text(b / 16));
            out.append(hex_text(b % 16));
            proof {
                reveal_strlit("%");
                assert(out@ =~= escaped_bytes(bytes@.take(i as int)) + escaped_byte(b));
            }
        }
        i = i + 1;
    }
    proof {
        assert(bytes@.take(i as int) =~= bytes@);
        if is_plain_segment(segment@) {
            plain_segment_is_kept(segment@);
        }
    }
    out
}

proof fn plain_bytes_are_kept(bytes: Seq<u8>)
    requires
        forall|i: int| 0 <= i < bytes.len() ==> is_segment_byte(#[trigger] bytes[i]),
    ensures
        escaped_bytes(bytes) == Seq::new(bytes.len(), |i: int| bytes[i] as char),
    decreases bytes.len(),
{
    if bytes.len() > 0 {
        plain_bytes_are_kept(bytes.drop_last());
        assert(escaped_bytes(bytes) =~= Seq::new(bytes.len(), |i: int| bytes[i] as char));
    } else {
        assert(escaped_bytes(bytes) =~= Seq::new(bytes.len(), |i: int| bytes[i] as char));
    }
}

/// A text in which every character may stand for itself is its own
/// escaped form.
pub proof fn plain_segment_is_kept(text: Seq<char>)
    requires
        is_plain_segment(text),
    ensures
        escaped(text) == text,
{
    assert(is_ascii_chars(text)) by {
        assert forall|i: int| 0 <= i < text.len() implies '\0' <= #[trigger] text[i]
            <= '\u{7f}' by {
            assert(is_segment_char(text[i]));
        }
    }
    is_ascii_chars_encode_utf8(text);
    let bytes = encode_utf8(text);
    assert forall|i: int| 0 <= i < bytes.len() implies is_segment_byte(#[trigger] bytes[i]) by {
        assert(is_segment_char(text[i]));
        assert(text[i] as u8 == bytes[i]);
        assert(bytes[i] as char == text[i]);
    }
    plain_bytes_are_kept(bytes);
    assert(escaped(text) =~= text);
}

/// The request of a keyword search.
pub fn search(token: &str, term: &str) -> (request: ApiRequest)
    ensures
        request@ == search_request(token@, term@),
{
    let mut query: Vec<(String, String)> = Vec::new();
    query.push((String::from_str("token"), String::from_str(token)));
    query.push((String::from_str("keyword"), String::from_str(term)));
    let request = ApiRequest { url: String::from_str("https://api.waqi.info/search/"), query };
    assert(request@.query =~= search_request(token@, term@).query);
    request
}

/// The request of a station's feed. The station is put into the path as
/// it is given: a caller whose station may hold other characters than a
/// segment's own escapes it first, with [`escape_path_segment`].
pub fn feed(token: &str, station: &str) -> (request: ApiRequest)
    ensures
        request@ == feed_request(token@, station@),
{
    let mut url = String::from_str("https://api.waqi.info/feed/");
    url.append(station);
    url.append("/");
    let mut query: Vec<(String, String)> = Vec::new();
    query.push((String::from_str("token"), String::from_str(token)));
    let request = ApiRequest { url, query };
    assert(request@.query =~= feed_request(token@, station@).query);
    request
}

impl Config {
    /// The request that this configuration calls for.
    pub fn request(&self) -> (request: ApiRequest)
        ensures
            request@ == request_of(self@),
    {
        match &self.command {
            Command::Search { search_term } => search(
                self.api_token.as_str(),
                search_term.as_str(),
            ),
            Command::Info { station_name, .. } => {
                let station = escape_path_segment(station_name.as_str());
                feed(self.api_token.as_str(), station.as_str())
            },
        }
    }
}

} // verus!
