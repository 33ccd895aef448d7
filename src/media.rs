use vstd::prelude::*;
use vstd::string::{StrSliceExecFns, StringExecFns};
use vstd::utf8::{decode_utf8, valid_utf8};

verus! {

broadcast use vstd::string::to_string_from_display_ensures_for_str;

/// What `str::trim` leaves of a text.
pub uninterp spec fn trim_of(s: Seq<char>) -> Seq<char>;

/// The standard, padded base64 encoding of some bytes.
pub uninterp spec fn base64_of(b: Seq<u8>) -> Seq<char>;

/// Relies on `str::trim`: the text without leading and trailing white space.
#[verifier::external_body]
fn trim_text(s: &str) -> (r: String)
    ensures
        r@ == trim_of(s@),
{
    s.trim().to_string()
}

/// Relies on `std::str::from_utf8`: succeeds exactly on valid UTF-8, with the
/// decoded characters.
#[verifier::external_body]
fn utf8_text(b: &[u8]) -> (r: Option<String>)
    ensures
        r is Some <==> valid_utf8(b@),
        r matches Some(s) ==> s@ == decode_utf8(b@),
{
    std::str::from_utf8(b).ok().map(|s| s.to_string())
}

/// Relies on `base64::engine::general_purpose::STANDARD.encode`: the padded
/// encoding, four characters for each started group of three bytes.
#[verifier::external_body]
fn base64_standard(b: &[u8]) -> (r: String)
    ensures
        r@ == base64_of(b@),
        r@.len() == 4 * ((b@.len() + 2) / 3),
{
    base64::Engine::encode(&base64::engine::general_purpose::STANDARD, b)
}

/// A field separator `|||` starts at index `i` of `s`.
pub open spec fn separator_at(s: Seq<char>, i: int) -> bool {
    &&& 0 <= i
    &&& i + 3 <= s.len()
    &&& s[i] == '|'
    &&& s[i + 1] == '|'
    &&& s[i + 2] == '|'
}

/// The fields of `s[start..]` scanned from `i` on: separators are found left
/// to right without overlap, and the text between them forms the fields.
pub open spec fn fields_from(s: Seq<char>, start: int, i: int) -> Seq<Seq<char>>
    decreases s.len() - i,
{
    if i + 3 > s.len() {
        seq![s.subrange(start, s.len() as int)]
    } else if separator_at(s, i) {
        seq![s.subrange(start, i)] + fields_from(s, i + 3, i + 3)
    } else {
        fields_from(s, start, i + 1)
    }
}

/// `s` split at every `|||`.
pub open spec fn fields_of(s: Seq<char>) -> Seq<Seq<char>> {
    fields_from(s, 0, 0)
}

/// Splits a text at every `|||`, as `str::split` does.
pub fn split_fields(s: &str) -> (r: Vec<String>)
    ensures
        r@.map_values(|f: String| f@) == fields_of(s@),
{
    let n = s.unicode_len();
    let mut parts: Vec<String> = Vec::new();
    let mut start: usize = 0;
    let mut i: usize = 0;
    while n - i >= 3
        invariant
            n == s@.len(),
            start <= i <= n,
            parts@.map_values(|f: String| f@) + fields_from(s@, start as int, i as int)
                == fields_of(s@),
        decreases n - i,
    {
        if s.get_char(i) == '|' && s.get_char(i + 1) == '|' && s.get_char(i + 2) == '|' {
            let field = s.substring_char(start, i).to_string();
            let ghost before = parts@.map_values(|f: String| f@);
            parts.push(field);
            assert(parts@.map_values(|f: String| f@) =~= before.push(field@));
            assert(before.push(field@) + fields_from(s@, i as int + 3, i as int + 3) =~= before
                + (seq![field@] + fields_from(s@, i as int + 3, i as int + 3)));
            start = i + 3;
            i = i + 3;
        } else {
            i = i + 1;
        }
    }
    let last = s.substring_char(start, n).to_string();
    let ghost before = parts@.map_values(|f: String| f@);
    parts.push(last);
    assert(parts@.map_values(|f: String| f@) =~= before + seq![last@]);
    parts
}

/// What the system reports about the media now playing. The duration and
/// elapsed time are the reported texts (seconds).
#[derive(Clone, Debug)]
pub struct MediaInfo {
    pub title: String,
    pub artist: String,
    pub album: String,
    pub artwork_url: Option<String>,
    pub duration: String,
    pub elapsed: String,
    pub is_playing: bool,
}

/// A report's fields make a media record when there are at least six: title,
/// artist, album, duration, elapsed time and the playing flag (`true`).
pub open spec fn media_matches(fields: Seq<Seq<char>>, m: MediaInfo) -> bool {
    &&& m.title@ == fields[0]
    &&& m.artist@ == fields[1]
    &&& m.album@ == fields[2]
    &&& m.artwork_url is None
    &&& m.duration@ == fields[3]
    &&& m.elapsed@ == fields[4]
    &&& m.is_playing == (fields[5] == "true"@)
}

/// Reads a trimmed now-playing report: none when it is empty or has fewer
/// than six fields.
pub fn media_from_report(report: &str) -> (r: Option<MediaInfo>)
    ensures
        r is Some <==> (report@.len() > 0 && fields_of(report@).len() >= 6),
        r matches Some(m) ==> media_matches(fields_of(report@), m),
{
    if report.unicode_len() == 0 {
        return None;
    }
    let parts = split_fields(report);
    if parts.len() < 6 {
        return None;
    }
    proof {
        assert(parts@.map_values(|f: String| f@).len() == parts@.len());
        assert forall|k: int| 0 <= k < 6 implies #[trigger] fields_of(report@)[k] == parts@[k]@ by {
            assert(parts@.map_values(|f: String| f@)[k] == parts@[k]@);
        }
    }
    let playing = parts[5] == "true".to_string();
    Some(
        MediaInfo {
            title: parts[0].clone(),
            artist: parts[1].clone(),
            album: parts[2].clone(),
            artwork_url: None,
            duration: parts[3].clone(),
            elapsed: parts[4].clone(),
            is_playing: playing,
        },
    )
}

/// Reads the now-playing report as the system prints it (surrounding white
/// space is dropped first).
pub fn parse_now_playing(output: &str) -> (r: Option<MediaInfo>)
    ensures
        r is Some <==> (trim_of(output@).len() > 0 && fields_of(trim_of(output@)).len() >= 6),
        r matches Some(m) ==> media_matches(fields_of(trim_of(output@)), m),
{
    let trimmed = trim_text(output);
    media_from_report(trimmed.as_str())
}

/// A trimmed text is an artwork link when it starts with `http` and is not
/// the `missing value` marker.
pub open spec fn is_link(t: Seq<char>) -> bool {
    &&& t.len() >= 4
    &&& t[0] == 'h'
    &&& t[1] == 't'
    &&& t[2] == 't'
    &&& t[3] == 'p'
    &&& t != "missing value"@
}

/// The artwork link in a trimmed text, if it is one.
pub fn artwork_link(trimmed: &str) -> (r: Option<String>)
    ensures
        r is Some <==> is_link(trimmed@),
        r matches Some(u) ==> u@ == trimmed@,
{
    let n = trimmed.unicode_len();
    if n < 4 {
        return None;
    }
    if !(trimmed.get_char(0) == 'h' && trimmed.get_char(1) == 't' && trimmed.get_char(2) == 't'
        && trimmed.get_char(3) == 'p') {
        return None;
    }
    let owned = trimmed.to_string();
    if owned == "missing value".to_string() {
        return None;
    }
    Some(owned)
}

/// The bytes without one trailing newline, if they end with one.
pub open spec fn without_newline(b: Seq<u8>) -> Seq<u8> {
    if b.len() > 0 && b.last() == 10u8 {
        b.drop_last()
    } else {
        b
    }
}

/// The data URL of a PNG image whose base64 encoding is `encoded`.
pub fn png_data_url(encoded: &str) -> (r: String)
    ensures
        r@ == "data:image/png;base64,"@ + encoded@,
{
    "data:image/png;base64,".to_string().concat(encoded)
}

/// The artwork for raw image bytes: none when no byte is left after a
/// trailing newline is dropped, else a PNG data URL.
pub fn artwork_image(data: &[u8]) -> (r: Option<String>)
    ensures
        r is Some <==> without_newline(data@).len() > 0,
        r matches Some(u) ==> u@ == "data:image/png;base64,"@ + base64_of(without_newline(data@)),
{
    let n = data.len();
    let mut kept: Vec<u8> = Vec::new();
    let end: usize = if n > 0 && data[n - 1] == 10u8 {
        n - 1
    } else {
        n
    };
    let mut i: usize = 0;
    while i < end
        invariant
            end <= n == data@.len(),
            i <= end,
            kept@ == data@.subrange(0, i as int),
        decreases end - i,
    {
        kept.push(data[i]);
        i = i + 1;
        assert(kept@ =~= data@.subrange(0, i as int));
    }
    assert(kept@ =~= without_newline(data@));
    if end == 0 {
        return None;
    }
    let encoded = base64_standard(kept.as_slice());
    Some(png_data_url(encoded.as_str()))
}

/// The artwork that the media query printed: a link when the output is text,
/// a PNG data URL when it is raw image bytes, none when it is empty.
pub fn artwork_from_output(output: &[u8]) -> (r: Option<String>)
    ensures
        output@.len() == 0 ==> r is None,
        output@.len() > 0 && valid_utf8(output@) ==> (r is Some <==> is_link(
            trim_of(decode_utf8(output@)),
        )) && (r matches Some(u) ==> u@ == trim_of(decode_utf8(output@))),
        output@.len() > 0 && !valid_utf8(output@) ==> (r is Some <==> without_newline(
            output@,
        ).len() > 0) && (r matches Some(u) ==> u@ == "data:image/png;base64,"@ + base64_of(
            without_newline(output@),
        )),
{
    if output.len() == 0 {
        return None;
    }
    match utf8_text(output) {
        Some(text) => {
            let trimmed = trim_text(text.as_str());
            artwork_link(trimmed.as_str())
        },
        None => artwork_image(output),
    }
}

} // verus!
