use crate::text::{decimal, decimal_digits, digit_char, starts_with};
use vstd::prelude::*;
use vstd::string::StringExecFns;

verus! {

/// Where the rendered route images live in the object store.
pub const ASSET_PREFIX: &'static str = "mapbox-maps/";

pub const ASSET_EXTENSION: &'static str = ".png";

/// The static-image request up to the encoded route: a two-pixel black line.
pub const RENDER_PREFIX: &'static str = "https://api.mapbox.com/styles/v1/mattgleich/clxxsfdfm002401qj7jcxh47e/static/path-2+000(";

/// The static-image request after the encoded route: fitted, 440 by 240, doubled.
pub const RENDER_SUFFIX: &'static str = ")/auto/440x240@2x";

/// The percent-encoding of a text, as urlencoding computes it.
pub uninterp spec fn url_encoded(s: Seq<char>) -> Seq<char>;

/// Whether `s` is plain ASCII, as encoded polylines are.
pub open spec fn all_ascii(s: Seq<char>) -> bool {
    forall|i: int| 0 <= i < s.len() ==> (s[i] as u32) < 128
}

/// Characters that percent-encoding leaves as they are.
pub open spec fn url_safe(c: char) -> bool {
    ('0' <= c && c <= '9') || ('A' <= c && c <= 'Z') || ('a' <= c && c <= 'z') || c == '-'
        || c == '.' || c == '_' || c == '~'
}

/// An upper-case hexadecimal digit.
pub open spec fn hex_char(d: nat) -> char {
    if d < 10 {
        digit_char(d)
    } else if d == 10 {
        'A'
    } else if d == 11 {
        'B'
    } else if d == 12 {
        'C'
    } else if d == 13 {
        'D'
    } else if d == 14 {
        'E'
    } else {
        'F'
    }
}

/// The percent-encoding of an ASCII text: safe characters stay, every
/// other one becomes `%` and its code in two upper-case hex digits.
pub open spec fn ascii_encoded(s: Seq<char>) -> Seq<char>
    decreases s.len(),
{
    if s.len() == 0 {
        Seq::empty()
    } else {
        let c = s.last();
        ascii_encoded(s.drop_last()) + if url_safe(c) {
            seq![c]
        } else {
            seq!['%', hex_char((c as u32 / 16) as nat), hex_char((c as u32 % 16) as nat)]
        }
    }
}

/// Relies on `urlencoding::encode`: percent-encodes every byte of the text
/// but ASCII letters, digits and `-`, `_`, `.`, `~`, with upper-case hex
/// digits; the result depends on the text alone.
#[verifier::external_body]
fn url_encode(s: &str) -> (r: String)
    ensures
        r@ == url_encoded(s@),
        all_ascii(s@) ==> r@ == ascii_encoded(s@),
{
    urlencoding::encode(s).into_owned()
}

/// The character sequences of a list of texts.
pub open spec fn texts(v: Seq<String>) -> Seq<Seq<char>> {
    v.map_values(|s: String| s@)
}

pub open spec fn is_asset_key(k: Seq<char>) -> bool {
    ASSET_PREFIX@.len() <= k.len() && k.subrange(0, ASSET_PREFIX@.len() as int) == ASSET_PREFIX@
}

/// The keys under the asset prefix, in listing order.
pub open spec fn asset_keys(keys: Seq<Seq<char>>) -> Seq<Seq<char>>
    decreases keys.len(),
{
    if keys.len() == 0 {
        Seq::empty()
    } else if is_asset_key(keys.last()) {
        asset_keys(keys.drop_last()).push(keys.last())
    } else {
        asset_keys(keys.drop_last())
    }
}

/// Of the listed object keys, those to delete before regenerating the
/// route images: every one under the asset prefix.
pub fn stale_asset_keys(keys: &Vec<String>) -> (r: Vec<String>)
    ensures
        texts(r@) == asset_keys(texts(keys@)),
{
    let mut out: Vec<String> = Vec::new();
    let mut i: usize = 0;
    while i < keys.len()
        invariant
            0 <= i <= keys.len(),
            texts(out@) == asset_keys(texts(keys@).take(i as int)),
        decreases keys.len() - i,
    {
        let ghost prev = texts(out@);
        assert(texts(keys@).take(i as int + 1).drop_last() =~= texts(keys@).take(i as int));
        if starts_with(keys[i].as_str(), ASSET_PREFIX) {
            out.push(keys[i].clone());
            assert(texts(out@) =~= prev.push(keys@[i as int]@));
        }
        i += 1;
    }
    assert(texts(keys@).take(keys.len() as int) =~= texts(keys@));
    out
}

pub open spec fn asset_key_of(id: u64) -> Seq<char> {
    ASSET_PREFIX@ + decimal_digits(id as nat) + ASSET_EXTENSION@
}

/// The object key of the route image of the activity `id`.
pub fn asset_key(id: u64) -> (r: String)
    ensures
        r@ == asset_key_of(id),
{
    String::from_str(ASSET_PREFIX).concat(decimal(id).as_str()).concat(ASSET_EXTENSION)
}

pub open spec fn render_url_of(encoded: Seq<char>) -> Seq<char> {
    RENDER_PREFIX@ + encoded + RENDER_SUFFIX@
}

/// The static-image request for a route whose polyline is already
/// percent-encoded; the access token is added as a query parameter.
pub fn render_url_encoded(encoded: &str) -> (r: String)
    ensures
        r@ == render_url_of(encoded@),
{
    String::from_str(RENDER_PREFIX).concat(encoded).concat(RENDER_SUFFIX)
}

/// The static-image request for a route given as a polyline.
pub fn render_url(polyline: &str) -> (r: String)
    ensures
        r@ == render_url_of(url_encoded(polyline@)),
        all_ascii(polyline@) ==> r@ == render_url_of(ascii_encoded(polyline@)),
{
    let encoded = url_encode(polyline);
    render_url_encoded(encoded.as_str())
}

} // verus!
