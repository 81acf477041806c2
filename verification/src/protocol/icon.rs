//! The `litools-icon://` scheme: which application a request names, which
//! of an icon family's sizes to use, and how its pixels become RGBA.
use crate::protocol::{percent_decode, percent_decoded};
use crate::protocol::plugin::trim_leading_slashes;
use crate::text::{chars_of, opt_text, slice_chars, str_eq, string_from_chars};
use vstd::prelude::*;

verus! {

/// The authority and path of the URI `s` as http's `Uri` parses them;
/// `None` when it does not parse.
pub uninterp spec fn uri_parts(s: Seq<char>) -> Option<(Option<Seq<char>>, Seq<char>)>;

pub open spec fn parts_view(p: Option<(Option<String>, String)>) -> Option<(Option<Seq<char>>, Seq<char>)> {
    match p {
        Some((a, path)) => Some((opt_text(a), path@)),
        None => None,
    }
}

/// http's `Uri::from_str`, then `Uri::authority` and `Uri::path` of the
/// result. What they return is named by `uri_parts`, not stated.
#[verifier::external_body]
fn split_uri(s: &str) -> (r: Option<(Option<String>, String)>)
    ensures
        parts_view(r) == uri_parts(s@),
{
    match s.parse::<http::Uri>() {
        Ok(u) => Some((u.authority().map(|a| a.as_str().to_owned()), u.path().to_owned())),
        Err(_) => None,
    }
}

/// The application an icon request names: the authority must be `app`,
/// and the path without its leading `/` is the percent-encoded id.
pub open spec fn app_id_spec(authority: Option<Seq<char>>, path: Seq<char>) -> Option<Seq<char>> {
    match authority {
        Some(a) => if a == "app"@ {
            percent_decoded(trim_leading_slashes(path))
        } else {
            None
        },
        None => None,
    }
}

/// The application id in an icon request's authority and path.
pub fn app_id_from_uri_parts(authority: Option<&str>, path: &str) -> (r: Option<String>)
    ensures
        opt_text(r) == app_id_spec(
            match authority {
                Some(a) => Some(a@),
                None => None,
            },
            path@,
        ),
{
    match authority {
        None => {
            return None;
        },
        Some(a) => {
            if !str_eq(a, "app") {
                return None;
            }
        },
    }
    let v = chars_of(path);
    let mut i: usize = 0;
    assert(v@.skip(0) =~= v@);
    while i < v.len() && v[i] == '/'
        invariant
            v@ == path@,
            i <= v@.len(),
            trim_leading_slashes(path@) == trim_leading_slashes(v@.skip(i as int)),
        decreases v.len() - i,
    {
        assert(v@.skip(i as int).drop_first() =~= v@.skip(i + 1));
        i = i + 1;
    }
    let rest = slice_chars(&v, i, v.len());
    assert(rest@ =~= v@.skip(i as int));
    let rest = string_from_chars(&rest);
    percent_decode(rest.as_str())
}

/// The application id an icon request URI names; `None` for a URI that
/// does not parse.
pub fn app_id_from_uri(uri: &str) -> (r: Option<String>)
    ensures
        opt_text(r) == match uri_parts(uri@) {
            Some((a, p)) => app_id_spec(a, p),
            None => None,
        },
{
    match split_uri(uri) {
        None => None,
        Some((authority, path)) => match authority {
            Some(a) => app_id_from_uri_parts(Some(a.as_str()), path.as_str()),
            None => app_id_from_uri_parts(None, path.as_str()),
        },
    }
}

/// How far a size is from the target.
pub open spec fn size_distance(size: u32, target: u32) -> int {
    if size >= target {
        size - target
    } else {
        target - size
    }
}

/// Which of an icon family's sizes is used: the first of those closest to
/// the target size; `None` when there are none.
pub fn closest_icon_index(sizes: &Vec<u32>, target: u32) -> (r: Option<usize>)
    ensures
        sizes@.len() == 0 <==> r is None,
        r matches Some(i) ==> {
            &&& i < sizes@.len()
            &&& forall|j: int|
                0 <= j < sizes@.len() ==> size_distance(sizes@[i as int], target) <= size_distance(
                    #[trigger] sizes@[j],
                    target,
                )
            &&& forall|j: int|
                0 <= j < i ==> size_distance(sizes@[i as int], target) < size_distance(
                    #[trigger] sizes@[j],
                    target,
                )
        },
{
    if sizes.len() == 0 {
        return None;
    }
    let mut best: usize = 0;
    let mut best_distance: u32 = if sizes[0] >= target {
        sizes[0] - target
    } else {
        target - sizes[0]
    };
    let mut i: usize = 1;
    while i < sizes.len()
        invariant
            1 <= i <= sizes@.len(),
            best < i,
            best_distance == size_distance(sizes@[best as int], target),
            forall|j: int| 0 <= j < i ==> best_distance <= size_distance(#[trigger] sizes@[j], target),
            forall|j: int| 0 <= j < best ==> best_distance < size_distance(#[trigger] sizes@[j], target),
        decreases sizes.len() - i,
    {
        let d: u32 = if sizes[i] >= target {
            sizes[i] - target
        } else {
            target - sizes[i]
        };
        if d < best_distance {
            best = i;
            best_distance = d;
        }
        i = i + 1;
    }
    Some(best)
}

/// The layout of an icon's pixel data.
#[derive(Clone, Copy, Debug, PartialEq, Eq, Structural)]
pub enum PixelFormat {
    RGBA,
    RGB,
    Gray,
    GrayAlpha,
    Alpha,
}

/// The bytes per pixel of a format.
pub open spec fn bytes_per_pixel(f: PixelFormat) -> int {
    match f {
        PixelFormat::RGBA => 4,
        PixelFormat::RGB => 3,
        PixelFormat::Gray => 1,
        PixelFormat::GrayAlpha => 2,
        PixelFormat::Alpha => 1,
    }
}

/// Byte `k` (0 to 3) of the RGBA form of the pixel whose data starts at
/// `b`: gray is spread over red, green and blue; a missing alpha is opaque;
/// an alpha-only pixel is white.
pub open spec fn rgba_channel(f: PixelFormat, data: Seq<u8>, b: int, k: int) -> u8 {
    match f {
        PixelFormat::RGBA => data[b + k],
        PixelFormat::RGB => if k < 3 {
            data[b + k]
        } else {
            255
        },
        PixelFormat::Gray => if k < 3 {
            data[b]
        } else {
            255
        },
        PixelFormat::GrayAlpha => if k < 3 {
            data[b]
        } else {
            data[b + 1]
        },
        PixelFormat::Alpha => if k < 3 {
            255
        } else {
            data[b]
        },
    }
}

/// The pixel data as RGBA: RGBA data as it is, whole; other data as four
/// bytes for each whole pixel, in order, with the bytes after the last
/// whole pixel dropped.
pub open spec fn rgba_spec(f: PixelFormat, data: Seq<u8>) -> Seq<u8> {
    if f == PixelFormat::RGBA {
        data
    } else {
        let n = (data.len() as int) / bytes_per_pixel(f);
        Seq::new(
            (n * 4) as nat,
            |i: int| rgba_channel(f, data, (i / 4) * bytes_per_pixel(f), i % 4),
        )
    }
}

/// Converts an icon's pixel data to RGBA.
pub fn rgba_bytes(format: PixelFormat, data: &[u8]) -> (out: Vec<u8>)
    ensures
        out@ == rgba_spec(format, data@),
{
    if format == PixelFormat::RGBA {
        let mut whole: Vec<u8> = Vec::new();
        let mut i: usize = 0;
        while i < data.len()
            invariant
                i <= data@.len(),
                whole@ == data@.take(i as int),
            decreases data.len() - i,
        {
            whole.push(data[i]);
            assert(data@.take(i + 1) =~= data@.take(i as int).push(data@[i as int]));
            i = i + 1;
        }
        assert(data@.take(data@.len() as int) =~= data@);
        return whole;
    }
    let bpp: usize = match format {
        PixelFormat::RGBA => 4,
        PixelFormat::RGB => 3,
        PixelFormat::Gray => 1,
        PixelFormat::GrayAlpha => 2,
        PixelFormat::Alpha => 1,
    };
    let len = data.len();
    let n = len / bpp;
    let mut out: Vec<u8> = Vec::new();
    let mut p: usize = 0;
    while p < n
        invariant
            bpp == bytes_per_pixel(format),
            len == data@.len(),
            n == (data@.len() as int) / (bpp as int),
            p <= n,
            out@.len() == 4 * p,
            forall|i: int|
                0 <= i < 4 * p ==> #[trigger] out@[i] == rgba_channel(
                    format,
                    data@,
                    (i / 4) * bpp,
                    i % 4,
                ),
        decreases n - p,
    {
        assert((p as int) * (bpp as int) + (bpp as int) <= len) by (nonlinear_arith)
            requires
                len == data@.len(),
                p < n,
                n == (data@.len() as int) / (bpp as int),
                1 <= bpp <= 4,
        ;
        let b = p * bpp;
        let (r, g, bl, a) = match format {
            PixelFormat::RGBA => (data[b], data[b + 1], data[b + 2], data[b + 3]),
            PixelFormat::RGB => (data[b], data[b + 1], data[b + 2], 255u8),
            PixelFormat::Gray => (data[b], data[b], data[b], 255u8),
            PixelFormat::GrayAlpha => (data[b], data[b], data[b], data[b + 1]),
            PixelFormat::Alpha => (255u8, 255u8, 255u8, data[b]),
        };
        let ghost before = out@;
        out.push(r);
        out.push(g);
        out.push(bl);
        out.push(a);
        assert forall|i: int| 0 <= i < 4 * (p + 1) implies #[trigger] out@[i] == rgba_channel(
            format,
            data@,
            (i / 4) * bpp,
            i % 4,
        ) by {
            if i >= 4 * p {
                assert(i / 4 == p as int);
                assert(i % 4 == i - 4 * p);
            } else {
                assert(out@[i] == before[i]);
            }
        }
        p = p + 1;
    }
    assert(out@ =~= Seq::new(
        (n * 4) as nat,
        |i: int| rgba_channel(format, data@, (i / 4) * bytes_per_pixel(format), i % 4),
    ));
    out
}

} // verus!
