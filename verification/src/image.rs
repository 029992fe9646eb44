//! The image component: where an image location points, the payload of a
//! `data:` URL, log-friendly truncation of locations, and the size an image
//! is scaled to.
use vstd::prelude::*;
use vstd::string::StrSliceExecFns;

use base64::Engine;

use crate::text::{
    abs, chars_of, find_chars, occurs_at, first_occurrence, starts_with_chars, strip_prefix_chars,
    strip_prefix_spec, is_prefix, string_of, trunc_div,
};

verus! {

/// Declares `base64::DecodeError` to the verifier; its contents are opaque.
#[verifier::external_type_specification]
#[verifier::external_body]
pub struct ExDecodeError(base64::DecodeError);

/// What standard base64 decoding (with padding) makes of some bytes, or
/// `None` when they are not valid standard base64.
pub uninterp spec fn base64_decode(input: Seq<u8>) -> Option<Seq<u8>>;

/// Decodes with `base64::engine::general_purpose::STANDARD.decode`. The result
/// is named by `base64_decode` of the input bytes: it succeeds exactly when
/// the name has a value, and then gives those bytes. The decoding itself is
/// not spelled out.
#[verifier::external_body]
fn standard_decode(input: &[u8]) -> (r: Result<Vec<u8>, base64::DecodeError>)
    ensures
        r is Ok <==> base64_decode(input@) is Some,
        r matches Ok(v) ==> base64_decode(input@) == Some(v@),
{
    base64::engine::general_purpose::STANDARD.decode(input)
}

/// Where an image location points.
#[derive(Debug)]
pub enum ImageSource {
    /// A web address, fetched as is.
    Http(String),
    /// A `data:image` URL holding base64 data.
    DataUrl(String),
    /// A file path (a `file://` prefix removed).
    File(String),
}

pub enum ImageSourceView {
    Http(Seq<char>),
    DataUrl(Seq<char>),
    File(Seq<char>),
}

impl View for ImageSource {
    type V = ImageSourceView;

    open spec fn view(&self) -> ImageSourceView {
        match self {
            ImageSource::Http(s) => ImageSourceView::Http(s@),
            ImageSource::DataUrl(s) => ImageSourceView::DataUrl(s@),
            ImageSource::File(s) => ImageSourceView::File(s@),
        }
    }
}

/// Where a location points: `http…` is fetched, `data:image…` is decoded,
/// anything else is a file, with a leading `file://` removed.
pub open spec fn source_of(url: Seq<char>) -> ImageSourceView {
    if is_prefix("http"@, url) {
        ImageSourceView::Http(url)
    } else if is_prefix("data:image"@, url) {
        ImageSourceView::DataUrl(url)
    } else {
        match strip_prefix_spec(url, "file://"@) {
            Some(path) => ImageSourceView::File(path),
            None => ImageSourceView::File(url),
        }
    }
}

/// Classifies an image location.
pub fn classify(url: &str) -> (r: ImageSource)
    ensures
        r@ == source_of(url@),
{
    let chars = chars_of(url);
    if starts_with_chars(&chars, &chars_of("http")) {
        ImageSource::Http(url.to_owned())
    } else if starts_with_chars(&chars, &chars_of("data:image")) {
        ImageSource::DataUrl(url.to_owned())
    } else {
        match strip_prefix_chars(&chars, &chars_of("file://")) {
            Some(path) => ImageSource::File(string_of(&path)),
            None => ImageSource::File(url.to_owned()),
        }
    }
}

/// Every location that starts with `http` is fetched as a web address; one
/// that starts with `data:image` instead is decoded as a data URL; any other
/// location is a file: the text after a leading `file://`, or else the whole
/// location.
pub proof fn law_where_a_location_points(url: Seq<char>)
    ensures
        is_prefix("http"@, url) ==> source_of(url) == ImageSourceView::Http(url),
        !is_prefix("http"@, url) && is_prefix("data:image"@, url) ==> source_of(url)
            == ImageSourceView::DataUrl(url),
        !is_prefix("http"@, url) && !is_prefix("data:image"@, url) && is_prefix("file://"@, url)
            ==> source_of(url) == ImageSourceView::File(url.subrange("file://"@.len() as int, url.len() as int)),
        !is_prefix("http"@, url) && !is_prefix("data:image"@, url) && !is_prefix("file://"@, url)
            ==> source_of(url) == ImageSourceView::File(url),
{
}

/// Where a location points for the window crate's image component: web
/// addresses are fetched, `file://` locations are files, and any other
/// location is refused.
pub open spec fn strict_source_of(url: Seq<char>) -> Option<ImageSourceView> {
    if is_prefix("http"@, url) {
        Some(ImageSourceView::Http(url))
    } else {
        match strip_prefix_spec(url, "file://"@) {
            Some(path) => Some(ImageSourceView::File(path)),
            None => None,
        }
    }
}

/// Classifies an image location, refusing locations that are neither web
/// addresses nor `file://` locations.
pub fn classify_strict(url: &str) -> (r: Option<ImageSource>)
    ensures
        match r {
            Some(s) => strict_source_of(url@) == Some(s@),
            None => strict_source_of(url@) is None,
        },
{
    let chars = chars_of(url);
    if starts_with_chars(&chars, &chars_of("http")) {
        Some(ImageSource::Http(url.to_owned()))
    } else {
        match strip_prefix_chars(&chars, &chars_of("file://")) {
            Some(path) => Some(ImageSource::File(string_of(&path))),
            None => None,
        }
    }
}

/// The window crate's component fetches every location that starts with
/// `http`, opens a `file://` location as the file after that prefix, and
/// refuses any other location.
pub proof fn law_where_a_strict_location_points(url: Seq<char>)
    ensures
        is_prefix("http"@, url) ==> strict_source_of(url) == Some(ImageSourceView::Http(url)),
        !is_prefix("http"@, url) && is_prefix("file://"@, url) ==> strict_source_of(url) == Some(
            ImageSourceView::File(url.subrange("file://"@.len() as int, url.len() as int)),
        ),
        !is_prefix("http"@, url) && !is_prefix("file://"@, url) ==> strict_source_of(url) is None,
{
}

/// The separator before the data of a base64 `data:` URL.
pub open spec fn base64_marker() -> Seq<char> {
    "base64,"@
}

/// The second piece of `url` split at `base64,`: the text after the first
/// `base64,` up to the next one, or `None` when there is no `base64,`.
pub open spec fn data_url_payload(url: Seq<char>) -> Option<Seq<char>> {
    match first_occurrence(url, base64_marker()) {
        None => None,
        Some(i) => {
            let rest = url.subrange(i + base64_marker().len(), url.len() as int);
            match first_occurrence(rest, base64_marker()) {
                None => Some(rest),
                Some(j) => Some(rest.subrange(0, j)),
            }
        },
    }
}

fn subrange_chars(v: &Vec<char>, from: usize, to: usize) -> (r: Vec<char>)
    requires
        from <= to <= v.len(),
    ensures
        r@ == v@.subrange(from as int, to as int),
{
    let mut r: Vec<char> = Vec::new();
    let mut k: usize = from;
    while k < to
        invariant
            from <= k <= to,
            to <= v.len(),
            r@ == v@.subrange(from as int, k as int),
        decreases to - k,
    {
        r.push(v[k]);
        k = k + 1;
        assert(r@ =~= v@.subrange(from as int, k as int));
    }
    r
}

/// Extracts the data of a base64 `data:` URL.
pub fn data_url_payload_exec(url: &str) -> (r: Option<String>)
    ensures
        match r {
            Some(p) => data_url_payload(url@) == Some(p@),
            None => data_url_payload(url@) is None,
        },
{
    let chars = chars_of(url);
    let marker = chars_of("base64,");
    match find_chars(&chars, &marker) {
        None => None,
        Some(i) => {
            assert(occurs_at(chars@, marker@, i as int));
            let m = marker.len();
            let n = chars.len();
            assert(i + m <= n);
            let rest = subrange_chars(&chars, i + m, n);
            match find_chars(&rest, &marker) {
                None => Some(string_of(&rest)),
                Some(j) => Some(string_of(&subrange_chars(&rest, 0, j))),
            }
        },
    }
}

/// The bytes of a base64 `data:` URL: its payload decoded as standard
/// base64, or `None` when there is no payload or it does not decode.
pub fn decode_data_url(url: &str) -> (r: Option<Vec<u8>>)
    ensures
        match data_url_payload(url@) {
            None => r is None,
            Some(p) => match base64_decode(vstd::utf8::encode_utf8(p)) {
                None => r is None,
                Some(bytes) => r matches Some(v) && v@ == bytes,
            },
        },
{
    match data_url_payload_exec(url) {
        None => None,
        Some(payload) => match standard_decode(payload.as_str().as_bytes()) {
            Ok(bytes) => Some(bytes),
            Err(_) => None,
        },
    }
}

/// The first fifty characters of a location, for log lines.
pub fn truncate<'a>(url: &'a str) -> (r: &'a str)
    ensures
        r@ == (if url@.len() > 50 {
            url@.subrange(0, 50)
        } else {
            url@
        }),
{
    if url.unicode_len() > 50 {
        url.substring_char(0, 50)
    } else {
        url
    }
}

/// The size an image of `width`×`height` is scaled to when the component asks
/// for `requested_width` and/or `requested_height`: a missing side keeps the
/// aspect ratio (rounded toward zero); with no side requested the image is
/// not scaled.
pub open spec fn scaled_size_spec(requested_width: Option<i32>, requested_height: Option<i32>, width: i32, height: i32) -> Option<(int, int)> {
    match (requested_width, requested_height) {
        (None, None) => None,
        (Some(w), Some(h)) => Some((w as int, h as int)),
        (Some(w), None) => Some((w as int, trunc_div(height * w, width as int))),
        (None, Some(h)) => Some((trunc_div(width * h, height as int), h as int)),
    }
}

/// Whether `a * b / c` can be computed in `i32` for an image side `c` (image
/// sides are positive).
pub open spec fn ratio_fits(a: i32, b: i32, c: i32) -> bool {
    &&& c > 0
    &&& i32::MIN <= a * b <= i32::MAX
}

/// Computes the size an image is scaled to. Image sides are positive; a
/// requested side whose aspect-ratio computation overflows is outside the
/// contract.
pub fn scaled_size(requested_width: Option<i32>, requested_height: Option<i32>, width: i32, height: i32) -> (r: Option<(i32, i32)>)
    requires
        requested_width is None ==> (requested_height matches Some(h) ==> ratio_fits(width, h, height)),
        requested_height is None ==> (requested_width matches Some(w) ==> ratio_fits(height, w, width)),
    ensures
        match r {
            Some((w, h)) => scaled_size_spec(requested_width, requested_height, width, height) == Some(
                (w as int, h as int),
            ),
            None => scaled_size_spec(requested_width, requested_height, width, height) is None,
        },
{
    match (requested_width, requested_height) {
        (None, None) => None,
        (Some(w), Some(h)) => Some((w, h)),
        (Some(w), None) => Some((w, height * w / width)),
        (None, Some(h)) => Some((width * h / height, h)),
    }
}

} // verus!
