use base64::Engine;
use vstd::prelude::*;

use crate::mime::{get_mime_type, mime_for_ext, mime_for_path};
use crate::text::{joined, same_text};

verus! {

/// The standard base64 text (with padding) of a byte sequence.
pub uninterp spec fn base64_of(bytes: Seq<u8>) -> Seq<char>;

/// Whether a character belongs to the standard base64 alphabet or is its
/// padding.
pub open spec fn is_base64_char(c: char) -> bool {
    ('A' <= c <= 'Z') || ('a' <= c <= 'z') || ('0' <= c <= '9') || c == '+' || c == '/' || c == '='
}

/// Relies on `base64::engine::general_purpose::STANDARD.encode`: the encoding
/// depends on the bytes alone, is padded to four characters for each three
/// bytes begun, and uses the standard alphabet.
#[verifier::external_body]
fn encode_base64(bytes: &[u8]) -> (r: String)
    ensures
        r@ == base64_of(bytes@),
        r@.len() == 4 * ((bytes@.len() + 2) / 3),
        forall|k: int| 0 <= k < r@.len() ==> is_base64_char(#[trigger] r@[k]),
{
    base64::engine::general_purpose::STANDARD.encode(bytes)
}

/// Relies on `base64::engine::general_purpose::STANDARD.decode`, which takes
/// canonical padding only and refuses stray trailing bits: it accepts exactly
/// the texts that `encode` produces, and gives back the bytes encoded.
#[verifier::external_body]
fn decode_base64(text: &str) -> (r: Option<Vec<u8>>)
    ensures
        r matches Some(v) ==> base64_of(v@) == text@,
        r matches Some(v) ==> forall|b: Seq<u8>| #[trigger] base64_of(b) == text@ ==> v@ == b,
        r is None ==> forall|b: Seq<u8>| #[trigger] base64_of(b) != text@,
{
    base64::engine::general_purpose::STANDARD.decode(text).ok()
}

/// `data:<mime>;base64,<payload>`
pub open spec fn data_url(mime: Seq<char>, payload: Seq<char>) -> Seq<char> {
    "data:"@ + mime + ";base64,"@ + payload
}

/// The index of the first `;` in `s` at or after `i`, or the length of `s`.
pub open spec fn first_semicolon(s: Seq<char>, i: nat) -> nat
    decreases s.len() - i,
{
    if i >= s.len() {
        s.len()
    } else if s[i as int] == ';' {
        i
    } else {
        first_semicolon(s, i + 1)
    }
}

/// The MIME type and the payload of a data URL: the MIME type runs from the
/// `data:` prefix to the first `;`, which must open `;base64,`.
pub open spec fn data_url_parts(url: Seq<char>) -> Option<(Seq<char>, Seq<char>)> {
    if url.len() >= 5 && url.subrange(0, 5) == "data:"@ {
        let rest = url.subrange(5, url.len() as int);
        let k = first_semicolon(rest, 0) as int;
        if k + 8 <= rest.len() && rest.subrange(k, k + 8) == ";base64,"@ {
            Some((rest.subrange(0, k), rest.subrange(k + 8, rest.len() as int)))
        } else {
            None
        }
    } else {
        None
    }
}

/// The data URL of a MIME type and a base64 payload.
pub fn data_url_from(mime: &str, payload: &str) -> (r: String)
    ensures
        r@ == data_url(mime@, payload@),
{
    let head = joined("data:", mime);
    let tagged = joined(head.as_str(), ";base64,");
    joined(tagged.as_str(), payload)
}

/// The data URL of the image at `path` whose contents are `bytes`: its MIME
/// type comes from the path's extension, its payload is the bytes in base64.
pub fn encode_image(path: &str, bytes: &[u8]) -> (r: String)
    ensures
        r@ == data_url(mime_for_path(path@), base64_of(bytes@)),
{
    let mime = get_mime_type(path);
    let payload = encode_base64(bytes);
    data_url_from(mime, payload.as_str())
}

/// Splits a data URL into its MIME type and the bytes that its base64 payload
/// holds; `None` where it is not a base64 data URL or the payload is not
/// standard base64.
pub fn decode_data_url(url: &str) -> (r: Option<(String, Vec<u8>)>)
    ensures
        r matches Some((mime, bytes)) ==> data_url_parts(url@) == Some((mime@, base64_of(bytes@))),
        forall|b: Seq<u8>|
            data_url_parts(url@) is Some && data_url_parts(url@).unwrap().1 == #[trigger] base64_of(
                b,
            ) ==> (r matches Some((mime, bytes)) && mime@ == data_url_parts(url@).unwrap().0
                && bytes@ == b),
{
    proof {
        reveal_strlit("data:");
        reveal_strlit(";base64,");
    }
    let n = url.unicode_len();
    if n < 5 {
        return None;
    }
    if !same_text(url.substring_char(0, 5), "data:") {
        return None;
    }
    let ghost rest = url@.subrange(5, n as int);
    let mut i: usize = 5;
    loop
        invariant
            5 <= i <= n,
            n == url@.len(),
            rest == url@.subrange(5, n as int),
            first_semicolon(rest, (i - 5) as nat) == first_semicolon(rest, 0),
        ensures
            5 <= i <= n,
            first_semicolon(rest, 0) == i - 5,
        decreases n - i,
    {
        if i == n {
            break;
        }
        if url.get_char(i) == ';' {
            break;
        }
        i = i + 1;
    }
    if n - i < 8 {
        return None;
    }
    assert(rest.subrange((i - 5) as int, (i + 3) as int) =~= url@.subrange(i as int, i + 8));
    if !same_text(url.substring_char(i, i + 8), ";base64,") {
        return None;
    }
    let mime = String::from_str(url.substring_char(5, i));
    let payload = url.substring_char(i + 8, n);
    proof {
        assert(rest.subrange(0, (i - 5) as int) =~= mime@);
        assert(rest.subrange((i + 3) as int, rest.len() as int) =~= payload@);
    }
    match decode_base64(payload) {
        Some(bytes) => Some((mime, bytes)),
        None => None,
    }
}

/// No MIME type of the table contains `;`, so it cannot be mistaken for the
/// start of the `;base64,` tag.
pub proof fn lemma_table_mime_plain(ext: Seq<char>)
    ensures
        !mime_for_ext(ext).contains(';'),
{
    reveal_strlit("image/png");
    reveal_strlit("image/jpeg");
    reveal_strlit("image/gif");
    reveal_strlit("image/tiff");
    reveal_strlit("application/pdf");
    reveal_strlit("application/octet-stream");
}

proof fn lemma_first_semicolon_in(s: Seq<char>, mime: Seq<char>, i: nat)
    requires
        !mime.contains(';'),
        i <= mime.len(),
        mime.len() < s.len(),
        s.subrange(0, mime.len() as int) == mime,
        s[mime.len() as int] == ';',
    ensures
        first_semicolon(s, i) == mime.len(),
    decreases mime.len() - i,
{
    if i < mime.len() {
        assert(s[i as int] == mime[i as int]);
        lemma_first_semicolon_in(s, mime, i + 1);
    }
}

/// A data URL splits back into the MIME type and the payload that made it,
/// for any MIME type without `;`.
pub proof fn lemma_data_url_parts(mime: Seq<char>, payload: Seq<char>)
    requires
        !mime.contains(';'),
    ensures
        data_url_parts(data_url(mime, payload)) == Some((mime, payload)),
{
    reveal_strlit("data:");
    reveal_strlit(";base64,");
    let url = data_url(mime, payload);
    let rest = url.subrange(5, url.len() as int);
    assert(rest =~= mime + ";base64,"@ + payload);
    assert(rest.subrange(0, mime.len() as int) =~= mime);
    assert(rest[mime.len() as int] == ';');
    lemma_first_semicolon_in(rest, mime, 0);
    let k = mime.len() as int;
    assert(rest.subrange(k, k + 8) =~= ";base64,"@);
    assert(rest.subrange(0, k) =~= mime);
    assert(rest.subrange(k + 8, rest.len() as int) =~= payload);
    assert(url.subrange(0, 5) =~= "data:"@);
}

/// The data URL of an image splits back into the image's MIME type and its
/// base64 text, so `decode_data_url` gives back exactly the image's bytes.
pub proof fn lemma_image_data_url_round_trip(path: Seq<char>, bytes: Seq<u8>)
    ensures
        data_url_parts(data_url(mime_for_path(path), base64_of(bytes))) == Some(
            (mime_for_path(path), base64_of(bytes)),
        ),
{
    lemma_table_mime_plain(path_ext_or_empty(path));
    reveal_strlit("application/octet-stream");
    lemma_data_url_parts(mime_for_path(path), base64_of(bytes));
}

spec fn path_ext_or_empty(path: Seq<char>) -> Seq<char> {
    match crate::mime::path_extension(path) {
        Some(e) => e,
        None => Seq::empty(),
    }
}

} // verus!
