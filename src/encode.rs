use vstd::prelude::*;
use vstd::string::StringExecFns;
use vstd::utf8::{encode_scalar, encode_utf8};

use crate::content::Content;
use crate::error::{Error, WVResult};
use crate::text::{find_nul, has_nul, lemma_nul_byte_iff_nul_char, NativeText};

verus! {

/// The bytes that percent-encoding leaves as they are: ASCII letters and
/// digits, `-`, `.`, `_` and `~`.
pub open spec fn is_unreserved(b: u8) -> bool {
    ||| 48 <= b <= 57
    ||| 65 <= b <= 90
    ||| 97 <= b <= 122
    ||| b == 45
    ||| b == 46
    ||| b == 95
    ||| b == 126
}

/// The upper-case hexadecimal digit for a value below 16.
pub open spec fn hex_digit(d: u8) -> char
    recommends
        d < 16,
{
    if d < 10 {
        (d + 48) as char
    } else {
        (d + 55) as char
    }
}

/// Whether a character is a hexadecimal digit, in either case.
pub open spec fn is_hex_char(c: char) -> bool {
    ||| '0' <= c <= '9'
    ||| 'A' <= c <= 'F'
    ||| 'a' <= c <= 'f'
}

/// The value of a hexadecimal digit.
pub open spec fn hex_value(c: char) -> int {
    if '0' <= c <= '9' {
        c as int - 48
    } else if 'A' <= c <= 'F' {
        c as int - 55
    } else {
        c as int - 87
    }
}

/// How one byte is written in percent-encoded text.
pub open spec fn percent_encode_byte(b: u8) -> Seq<char> {
    if is_unreserved(b) {
        seq![b as char]
    } else {
        seq!['%', hex_digit(b / 16), hex_digit(b % 16)]
    }
}

/// Percent-encoding of a byte sequence, byte by byte.
pub open spec fn percent_encode(bytes: Seq<u8>) -> Seq<char>
    decreases bytes.len(),
{
    if bytes.len() == 0 {
        seq![]
    } else {
        percent_encode_byte(bytes[0]) + percent_encode(bytes.drop_first())
    }
}

/// Percent-decoding: `%` and two hexadecimal digits stand for one byte; any
/// other character stands for its own UTF-8 encoding.
pub open spec fn percent_decode(s: Seq<char>) -> Seq<u8>
    decreases s.len(),
{
    if s.len() == 0 {
        seq![]
    } else if s.len() >= 3 && s[0] == '%' && is_hex_char(s[1]) && is_hex_char(s[2]) {
        seq![(hex_value(s[1]) * 16 + hex_value(s[2])) as u8] + percent_decode(
            s.subrange(3, s.len() as int),
        )
    } else {
        encode_scalar(s[0] as u32) + percent_decode(s.drop_first())
    }
}

/// The scheme and media type in front of literal HTML content.
pub open spec fn html_url_prefix() -> Seq<char> {
    seq!['d', 'a', 't', 'a', ':', 't', 'e', 'x', 't', '/', 'h', 't', 'm', 'l', ',']
}

/// The URL under which literal HTML is loaded.
pub open spec fn html_url(html: Seq<char>) -> Seq<char> {
    html_url_prefix() + percent_encode(encode_utf8(html))
}

/// The URL that the window loads for some content, as a text.
pub open spec fn content_url_spec(content: Content) -> Seq<char> {
    match content {
        Content::Url(u) => u@,
        Content::Html(h) => html_url(h@),
    }
}

/// The text of the content that the native layer is handed.
pub open spec fn content_text(content: Content) -> Seq<char> {
    match content {
        Content::Url(u) => u@,
        Content::Html(h) => h@,
    }
}

/// Relies on urlencoding::encode: each byte of the UTF-8 encoding of `s`
/// other than an ASCII letter, digit, `-`, `.`, `_` or `~` becomes `%`
/// followed by two upper-case hexadecimal digits; the others stay as they are.
#[verifier::external_body]
fn url_encode(s: &str) -> (r: String)
    ensures
        r@ == percent_encode(encode_utf8(s@)),
{
    urlencoding::encode(s).into_owned()
}

proof fn lemma_percent_encode_has_no_nul(bytes: Seq<u8>)
    ensures
        forall|i: int|
            0 <= i < percent_encode(bytes).len() ==> '\0' < #[trigger] percent_encode(bytes)[i]
                <= '\u{7f}',
    decreases bytes.len(),
{
    if bytes.len() > 0 {
        let rest = bytes.drop_first();
        lemma_percent_encode_has_no_nul(rest);
        let b = bytes[0];
        let e = percent_encode_byte(b);
        assert forall|i: int| 0 <= i < e.len() implies '\0' < #[trigger] e[i] <= '\u{7f}' by {
        }
        assert(percent_encode(bytes) == e + percent_encode(rest));
    }
}

/// The URL that literal HTML becomes holds no zero byte.
proof fn lemma_html_url_has_no_nul(html: Seq<char>)
    ensures
        !has_nul(html_url(html)),
{
    let enc = percent_encode(encode_utf8(html));
    lemma_percent_encode_has_no_nul(encode_utf8(html));
    let u = html_url(html);
    assert forall|i: int| 0 <= i < u.len() implies u[i] != '\0' by {
        if i >= html_url_prefix().len() {
            assert(u[i] == enc[i - html_url_prefix().len()]);
        }
    }
    lemma_nul_byte_iff_nul_char(u);
}

/// Decoding undoes encoding, byte for byte.
pub proof fn lemma_percent_round_trip(bytes: Seq<u8>)
    ensures
        percent_decode(percent_encode(bytes)) == bytes,
    decreases bytes.len(),
{
    if bytes.len() > 0 {
        let b = bytes[0];
        let rest = bytes.drop_first();
        let e = percent_encode_byte(b);
        let s = percent_encode(bytes);
        lemma_percent_round_trip(rest);
        assert(s == e + percent_encode(rest));
        if is_unreserved(b) {
            assert(s[0] == b as char);
            assert(s.drop_first() == percent_encode(rest));
            assert(encode_scalar(b as char as u32) == seq![b]) by {
                let v = b as u32;
                assert((v & 0x7F) as u8 == b) by (bit_vector)
                    requires
                        v == b as u32,
                        b < 128,
                ;
            }
        } else {
            let hi = b / 16;
            let lo = b % 16;
            assert(hex_value(hex_digit(hi)) == hi as int);
            assert(hex_value(hex_digit(lo)) == lo as int);
            assert(s.subrange(3, s.len() as int) == percent_encode(rest));
            assert((hi as int * 16 + lo as int) as u8 == b);
        }
        assert(bytes == seq![b] + rest);
    }
}

/// Literal HTML, loaded from the URL it becomes, reads back as its own UTF-8
/// encoding: the part after the prefix percent-decodes to the markup.
pub proof fn lemma_html_content_round_trip(html: Seq<char>)
    ensures
        html_url(html).subrange(0, html_url_prefix().len() as int) == html_url_prefix(),
        percent_decode(html_url(html).subrange(html_url_prefix().len() as int, html_url(html).len() as int))
            == encode_utf8(html),
{
    let u = html_url(html);
    let p = html_url_prefix();
    assert(u.subrange(0, p.len() as int) == p);
    assert(u.subrange(p.len() as int, u.len() as int) == percent_encode(encode_utf8(html)));
    lemma_percent_round_trip(encode_utf8(html));
}

/// The URL that the window loads for `content`, ready for the native layer.
/// A URL is taken as it is; literal HTML is percent-encoded behind
/// `data:text/html,`. Either fails when its text holds a zero byte.
pub fn content_url(content: &Content) -> (r: WVResult<NativeText>)
    ensures
        has_nul(content_text(*content)) ==> r == Err::<NativeText, Error>(Error::StringConversion),
        !has_nul(content_text(*content)) ==> (r matches Ok(t) && t@ == content_url_spec(*content)),
{
    match content {
        Content::Url(u) => NativeText::new(u),
        Content::Html(h) => {
            match find_nul(h.as_bytes()) {
                Some(_) => Err(Error::StringConversion),
                None => {
                    let enc = url_encode(h);
                    let mut url = String::from_str("data:text/html,");
                    proof {
                        reveal_strlit("data:text/html,");
                    }
                    assert(url@ == html_url_prefix());
                    url.append(enc.as_str());
                    proof {
                        lemma_html_url_has_no_nul(h@);
                    }
                    Ok(NativeText::from_checked(url))
                },
            }
        },
    }
}

} // verus!
