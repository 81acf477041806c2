//! The custom URL schemes the shell serves: percent-decoding of request
//! paths, and the plugin asset scheme.
pub mod icon;
pub mod icon_disk_cache;
pub mod plugin;

use vstd::prelude::*;
use vstd::utf8::decode_utf8;
use vstd::utf8::encode_utf8;
use vstd::utf8::valid_utf8;

verus! {

/// The value of an ASCII hexadecimal digit, either case.
pub open spec fn hex_digit(b: u8) -> Option<u8> {
    if 0x30 <= b <= 0x39 {
        Some((b - 0x30) as u8)
    } else if 0x61 <= b <= 0x66 {
        Some((b - 0x61 + 10) as u8)
    } else if 0x41 <= b <= 0x46 {
        Some((b - 0x41 + 10) as u8)
    } else {
        None
    }
}

/// An ASCII letter in lower case (other bytes as they are).
pub open spec fn ascii_lower(b: u8) -> u8 {
    if 0x41 <= b <= 0x5a {
        (b + 0x20) as u8
    } else {
        b
    }
}

/// A hexadecimal digit character: `0`-`9`, `a`-`f` or `A`-`F`.
pub open spec fn is_hex_char(b: u8) -> bool {
    (0x30 <= b <= 0x39) || (0x61 <= b <= 0x66) || (0x41 <= b <= 0x46)
}

/// Hexadecimal digits are read regardless of case: exactly the hexadecimal
/// characters have a value, the value is below 16, and a digit written in
/// lower case has the value of the same digit in upper case. So a `%XX`
/// escape decodes to the same byte in either case.
pub proof fn law_hex_digits_ignore_case(b: u8, c: u8)
    ensures
        hex_digit(b) is Some <==> is_hex_char(b),
        hex_digit(b) matches Some(v) ==> v < 16,
        hex_digit(ascii_lower(b)) == hex_digit(b),
        percent_decoded_bytes(seq![0x25u8, ascii_lower(b), ascii_lower(c)])
            == percent_decoded_bytes(seq![0x25u8, b, c]),
{
    let lower = seq![0x25u8, ascii_lower(b), ascii_lower(c)];
    let upper = seq![0x25u8, b, c];
    assert(lower.subrange(3, 3) =~= Seq::<u8>::empty());
    assert(upper.subrange(3, 3) =~= Seq::<u8>::empty());
    assert(hex_digit(ascii_lower(c)) == hex_digit(c));
}

/// `p` put in front of the decoded rest, when there is one.
pub open spec fn prepend_bytes(p: Seq<u8>, rest: Option<Seq<u8>>) -> Option<Seq<u8>> {
    match rest {
        Some(r) => Some(p + r),
        None => None,
    }
}

/// The bytes that `%XX` escapes stand for: every `%` must be followed by two
/// hexadecimal digits, other bytes stand for themselves.
pub open spec fn percent_decoded_bytes(b: Seq<u8>) -> Option<Seq<u8>>
    decreases b.len(),
{
    if b.len() == 0 {
        Some(Seq::empty())
    } else if b[0] != 0x25 {
        prepend_bytes(seq![b[0]], percent_decoded_bytes(b.drop_first()))
    } else if b.len() < 3 {
        None
    } else {
        match (hex_digit(b[1]), hex_digit(b[2])) {
            (Some(h), Some(l)) => prepend_bytes(
                seq![(h * 16 + l) as u8],
                percent_decoded_bytes(b.subrange(3, b.len() as int)),
            ),
            _ => None,
        }
    }
}

/// The decoded string, when the escapes are well formed and the bytes they
/// give are UTF-8.
pub open spec fn percent_decoded(s: Seq<char>) -> Option<Seq<char>> {
    match percent_decoded_bytes(encode_utf8(s)) {
        Some(b) => if valid_utf8(b) {
            Some(decode_utf8(b))
        } else {
            None
        },
        None => None,
    }
}

/// Decodes one hexadecimal digit.
pub fn hex_value(byte: u8) -> (r: Option<u8>)
    ensures
        r == hex_digit(byte),
{
    if 0x30 <= byte && byte <= 0x39 {
        Some(byte - 0x30)
    } else if 0x61 <= byte && byte <= 0x66 {
        Some(byte - 0x61 + 10)
    } else if 0x41 <= byte && byte <= 0x46 {
        Some(byte - 0x41 + 10)
    } else {
        None
    }
}

/// `String::from_utf8`: the documentation says it fails exactly when the
/// bytes are not well-formed UTF-8; otherwise the string holds the
/// characters they encode.
#[verifier::external_body]
fn string_from_utf8(bytes: Vec<u8>) -> (r: Option<String>)
    ensures
        r is Some <==> valid_utf8(bytes@),
        r is Some ==> r->0@ == decode_utf8(bytes@),
{
    String::from_utf8(bytes).ok()
}

/// Decodes `%XX` escapes in a URL path. `None` when an escape is cut short
/// or not hexadecimal, or when the decoded bytes are not UTF-8.
pub fn percent_decode(value: &str) -> (r: Option<String>)
    ensures
        r is Some <==> percent_decoded(value@) is Some,
        r is Some ==> r->0@ == percent_decoded(value@)->0,
{
    let b = value.as_bytes();
    let ghost all = b@;
    assert(all == encode_utf8(value@));
    let n = b.len();
    let mut out: Vec<u8> = Vec::new();
    let mut i: usize = 0;
    proof {
        assert(all.subrange(0, n as int) =~= all);
        if let Some(r) = percent_decoded_bytes(all) {
            assert(Seq::<u8>::empty() + r =~= r);
        }
    }
    while i < n
        invariant
            n == b@.len(),
            all == b@,
            all == encode_utf8(value@),
            i <= n,
            percent_decoded_bytes(all) == prepend_bytes(
                out@,
                percent_decoded_bytes(all.subrange(i as int, n as int)),
            ),
        decreases n - i,
    {
        let ghost rest = all.subrange(i as int, n as int);
        let byte = b[i];
        assert(rest[0] == byte);
        if byte != 0x25 {
            assert(rest.drop_first() =~= all.subrange(i + 1, n as int));
            assert(out@ + (seq![byte] + percent_decoded_bytes(rest.drop_first())->0)
                =~= out@.push(byte) + percent_decoded_bytes(rest.drop_first())->0);
            out.push(byte);
            i = i + 1;
        } else {
            if n - i < 3 {
                assert(rest.len() == n - i);
                assert(percent_decoded_bytes(rest) is None);
                return None;
            }
            assert(rest[1] == b@[i + 1] && rest[2] == b@[i + 2]);
            let high = hex_value(b[i + 1]);
            let low = hex_value(b[i + 2]);
            match (high, low) {
                (Some(h), Some(l)) => {
                    let v: u8 = h * 16 + l;
                    assert(rest.subrange(3, rest.len() as int) =~= all.subrange(
                        i + 3,
                        n as int,
                    ));
                    assert(out@ + (seq![v] + percent_decoded_bytes(
                        rest.subrange(3, rest.len() as int),
                    )->0) =~= out@.push(v) + percent_decoded_bytes(
                        rest.subrange(3, rest.len() as int),
                    )->0);
                    out.push(v);
                    i = i + 3;
                },
                _ => {
                    assert(percent_decoded_bytes(rest) is None);
                    return None;
                },
            }
        }
    }
    assert(all.subrange(n as int, n as int) =~= Seq::<u8>::empty());
    assert(out@ + Seq::<u8>::empty() =~= out@);
    string_from_utf8(out)
}

} // verus!
