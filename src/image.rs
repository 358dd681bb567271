//! Image payloads: base64 bodies, data URIs and the MIME type implied by a
//! file extension.
use vstd::prelude::*;
use base64::Engine;
use crate::text::same_text;

verus! {

/// The standard (RFC 4648, padded) base64 text of `b`.
pub uninterp spec fn base64_of(b: Seq<u8>) -> Seq<char>;

/// The extension of the file named by the path `p`, as `Path::extension` sees it.
pub uninterp spec fn extension_of(p: Seq<char>) -> Option<Seq<char>>;

/// A character of the standard base64 alphabet, or the padding character.
pub open spec fn is_base64_char(c: char) -> bool {
    ('A' <= c <= 'Z') || ('a' <= c <= 'z') || ('0' <= c <= '9') || c == '+' || c == '/' || c
        == '='
}

pub open spec fn comma_free(s: Seq<char>) -> bool {
    forall|i: int| 0 <= i < s.len() ==> s[i] != ','
}

/// What precedes the first comma of `s` (all of `s` when it has none).
pub open spec fn before_comma(s: Seq<char>) -> Seq<char>
    decreases s.len(),
{
    if s.len() == 0 {
        s
    } else if s[0] == ',' {
        Seq::empty()
    } else {
        seq![s[0]] + before_comma(s.skip(1))
    }
}

/// What follows the first comma of `s` (empty when it has none).
pub open spec fn after_comma(s: Seq<char>) -> Seq<char>
    decreases s.len(),
{
    if s.len() == 0 {
        s
    } else if s[0] == ',' {
        s.skip(1)
    } else {
        after_comma(s.skip(1))
    }
}

/// The base64 body of an image payload: the field after the first comma of
/// a data URI (`data:image/png;base64,<body>`), or the whole text when it
/// holds no comma.
pub open spec fn payload_of(data: Seq<char>) -> Seq<char> {
    if comma_free(data) {
        data
    } else {
        before_comma(after_comma(data))
    }
}

/// The bytes whose base64 text is `s`, if there are any.
pub open spec fn base64_decoded(s: Seq<char>) -> Option<Seq<u8>> {
    if exists|b: Seq<u8>| base64_of(b) == s {
        Some(choose|b: Seq<u8>| base64_of(b) == s)
    } else {
        None
    }
}

/// The bytes that an image payload stands for, if its body is valid base64.
pub open spec fn decoded_image(data: Seq<char>) -> Option<Seq<u8>> {
    base64_decoded(payload_of(data))
}

/// The MIME type announced for an image file with the given extension.
pub open spec fn mime_of(ext: Option<Seq<char>>) -> Seq<char> {
    if ext == Some("jpg"@) || ext == Some("jpeg"@) {
        "image/jpeg"@
    } else if ext == Some("gif"@) {
        "image/gif"@
    } else if ext == Some("webp"@) {
        "image/webp"@
    } else if ext == Some("bmp"@) {
        "image/bmp"@
    } else {
        "image/png"@
    }
}

/// The data URI under which an image file's bytes are handed out.
pub open spec fn data_uri(mime: Seq<char>, bytes: Seq<u8>) -> Seq<char> {
    "data:"@ + mime + ";base64"@ + seq![','] + base64_of(bytes)
}

/// Relies on base64's `STANDARD.encode`: padded RFC 4648 text over the
/// standard alphabet, from which `STANDARD.decode` recovers exactly `b`.
#[verifier::external_body]
fn encode_base64(b: &Vec<u8>) -> (r: String)
    requires
        b@.len() <= isize::MAX,
    ensures
        r@ == base64_of(b@),
        forall|i: int| 0 <= i < r@.len() ==> is_base64_char(#[trigger] r@[i]),
        forall|c: Seq<u8>| #[trigger] base64_of(c) == r@ ==> c == b@,
{
    base64::engine::general_purpose::STANDARD.encode(b)
}

/// Relies on base64's `STANDARD.decode`: it succeeds exactly on canonical
/// padded text, and then returns the bytes whose encoding that text is.
#[verifier::external_body]
fn decode_base64(s: &str) -> (r: Result<Vec<u8>, String>)
    ensures
        r is Ok ==> base64_of(r->Ok_0@) == s@,
        forall|c: Seq<u8>| #[trigger] base64_of(c) == s@ ==> r is Ok && r->Ok_0@ == c,
{
    base64::engine::general_purpose::STANDARD.decode(s).map_err(|e| e.to_string())
}

/// Relies on `Path::extension` (then `to_str`, which cannot fail on text
/// that came from a `&str`).
#[verifier::external_body]
fn path_extension(path: &str) -> (r: Option<String>)
    ensures
        extension_of(path@) == match r {
            Some(e) => Some(e@),
            None => None,
        },
{
    std::path::Path::new(path).extension().and_then(|e| e.to_str()).map(|e| e.to_string())
}

proof fn lemma_comma_scan(s: Seq<char>, i: int)
    requires
        0 <= i <= s.len(),
        comma_free(s.take(i)),
    ensures
        before_comma(s) == s.take(i) + before_comma(s.skip(i)),
        after_comma(s) == after_comma(s.skip(i)),
    decreases i,
{
    if i > 0 {
        assert(s.take(i)[0] == s[0]);
        let t = s.skip(1);
        assert(comma_free(t.take(i - 1))) by {
            assert forall|k: int| 0 <= k < i - 1 implies #[trigger] t.take(i - 1)[k] != ',' by {
                assert(s.take(i)[k + 1] == t.take(i - 1)[k]);
            }
        }
        lemma_comma_scan(t, i - 1);
        assert(t.skip(i - 1) =~= s.skip(i));
        assert(seq![s[0]] + t.take(i - 1) =~= s.take(i));
    } else {
        assert(s.skip(0) =~= s);
        assert(s.take(0) + before_comma(s) =~= before_comma(s));
    }
}

/// A comma-free prefix followed by a comma in front of a comma-free body
/// leaves that body as the payload.
proof fn lemma_payload_after_prefix(prefix: Seq<char>, body: Seq<char>)
    requires
        comma_free(prefix),
        comma_free(body),
    ensures
        payload_of(prefix + seq![','] + body) == body,
{
    let d = prefix + seq![','] + body;
    assert(d[prefix.len() as int] == ',');
    assert(!comma_free(d));
    assert(d.take(prefix.len() as int) =~= prefix);
    lemma_comma_scan(d, prefix.len() as int);
    let rest = d.skip(prefix.len() as int);
    assert(rest[0] == ',');
    assert(rest.skip(1) =~= body);
    assert(body.take(body.len() as int) =~= body);
    lemma_comma_scan(body, body.len() as int);
    assert(body.skip(body.len() as int) =~= Seq::<char>::empty());
    assert(before_comma(body) =~= body);
}

/// Whether a payload is written as a data URI or as its bare base64 body,
/// it stands for the same bytes.
pub proof fn lemma_uri_and_bare_decode_alike(prefix: Seq<char>, body: Seq<char>)
    requires
        comma_free(prefix),
        comma_free(body),
    ensures
        decoded_image(prefix + seq![','] + body) == decoded_image(body),
        payload_of(prefix + seq![','] + body) == payload_of(body),
{
    lemma_payload_after_prefix(prefix, body);
}

/// The first position at or after `from` that holds a comma, or `len`.
fn find_comma(s: &str, from: usize, len: usize) -> (r: usize)
    requires
        len == s@.len(),
        from <= len,
    ensures
        from <= r <= len,
        forall|k: int| from <= k < r ==> s@[k] != ',',
        r < len ==> s@[r as int] == ',',
{
    let mut i = from;
    while i < len
        invariant
            len == s@.len(),
            from <= i <= len,
            forall|k: int| from <= k < i ==> s@[k] != ',',
        decreases len - i,
    {
        if s.get_char(i) == ',' {
            return i;
        }
        i = i + 1;
    }
    i
}

/// The base64 body of an image payload (see `payload_of`).
pub fn image_payload(data: &str) -> (r: String)
    ensures
        r@ == payload_of(data@),
{
    let len = data.unicode_len();
    let i = find_comma(data, 0, len);
    if i == len {
        assert(comma_free(data@));
        return data.to_owned();
    }
    assert(!comma_free(data@));
    let j = find_comma(data, i + 1, len);
    let ghost d = data@;
    proof {
        assert(comma_free(d.take(i as int))) by {
            assert forall|k: int| 0 <= k < i implies #[trigger] d.take(i as int)[k] != ',' by {}
        }
        lemma_comma_scan(d, i as int);
        let rest = d.skip(i as int);
        assert(rest[0] == ',');
        assert(rest.skip(1) =~= d.skip(i + 1));
        let tail = d.skip(i + 1);
        let m = j - (i + 1);
        assert(comma_free(tail.take(m))) by {
            assert forall|k: int| 0 <= k < m implies #[trigger] tail.take(m)[k] != ',' by {
                assert(tail.take(m)[k] == d[i + 1 + k]);
            }
        }
        lemma_comma_scan(tail, m);
        if j < len {
            assert(tail.skip(m)[0] == ',');
        } else {
            assert(tail.skip(m) =~= Seq::<char>::empty());
        }
        assert(tail.take(m) =~= d.subrange(i + 1, j as int));
    }
    data.substring_char(i + 1, j).to_owned()
}

/// The bytes whose base64 text is `s`; fails, with the decoder's
/// description, when `s` is not valid base64.
pub fn decode_base64_text(s: &str) -> (r: Result<Vec<u8>, String>)
    ensures
        r is Ok <==> base64_decoded(s@) is Some,
        r matches Ok(v) ==> base64_decoded(s@) == Some(v@),
{
    let r = decode_base64(s);
    proof {
        if r is Ok {
            assert(base64_of(r->Ok_0@) == s@);
            let c = choose|c: Seq<u8>| base64_of(c) == s@;
            assert(base64_of(c) == s@);
        } else {
            assert forall|c: Seq<u8>| base64_of(c) != s@ by {
                if base64_of(c) == s@ {
                    assert(r is Ok);
                }
            }
        }
    }
    r
}

/// The bytes of an image payload given as a data URI or as bare base64.
/// Fails, with the decoder's description, when the body is not valid base64.
pub fn decode_image_data(data: &str) -> (r: Result<Vec<u8>, String>)
    ensures
        r is Ok <==> decoded_image(data@) is Some,
        r matches Ok(v) ==> decoded_image(data@) == Some(v@),
{
    let body = image_payload(data);
    decode_base64_text(body.as_str())
}

/// The MIME type for an extension (see `mime_of`).
pub fn mime_for_extension(ext: Option<&str>) -> (r: &'static str)
    ensures
        r@ == mime_of(
            match ext {
                Some(e) => Some(e@),
                None => None,
            },
        ),
        comma_free(r@),
{
    proof {
        reveal_strlit("jpg");
        reveal_strlit("jpeg");
        reveal_strlit("gif");
        reveal_strlit("webp");
        reveal_strlit("bmp");
        reveal_strlit("image/jpeg");
        reveal_strlit("image/gif");
        reveal_strlit("image/webp");
        reveal_strlit("image/bmp");
        reveal_strlit("image/png");
    }
    match ext {
        Some(e) => {
            if same_text(e, "jpg") || same_text(e, "jpeg") {
                "image/jpeg"
            } else if same_text(e, "gif") {
                "image/gif"
            } else if same_text(e, "webp") {
                "image/webp"
            } else if same_text(e, "bmp") {
                "image/bmp"
            } else {
                "image/png"
            }
        },
        None => "image/png",
    }
}

/// The data URI under which the bytes of the image file at `path` are handed
/// out: its MIME type follows the file's extension. Decoding that text gives
/// back exactly `bytes`.
pub fn image_data_uri(path: &str, bytes: &Vec<u8>) -> (r: String)
    requires
        bytes@.len() <= isize::MAX,
    ensures
        r@ == data_uri(mime_of(extension_of(path@)), bytes@),
        decoded_image(r@) == Some(bytes@),
{
    let ext = path_extension(path);
    let mime = match &ext {
        Some(e) => mime_for_extension(Some(e.as_str())),
        None => mime_for_extension(None),
    };
    let body = encode_base64(bytes);
    let mut out = String::from_str("data:");
    out.append(mime);
    out.append(";base64");
    out.append(",");
    out.append(body.as_str());
    proof {
        reveal_strlit("data:");
        reveal_strlit(";base64");
        reveal_strlit(",");
        let prefix = "data:"@ + mime@ + ";base64"@;
        assert(comma_free(prefix)) by {
            assert forall|k: int| 0 <= k < prefix.len() implies #[trigger] prefix[k] != ',' by {
                if k >= 5 && k < 5 + mime@.len() {
                    assert(prefix[k] == mime@[k - 5]);
                }
            }
        }
        assert(comma_free(body@)) by {
            assert forall|k: int| 0 <= k < body@.len() implies #[trigger] body@[k] != ',' by {
                assert(is_base64_char(body@[k]));
            }
        }
        assert(out@ =~= prefix + seq![','] + body@);
        lemma_payload_after_prefix(prefix, body@);
        let c = choose|c: Seq<u8>| base64_of(c) == payload_of(out@);
        assert(base64_of(bytes@) == payload_of(out@));
    }
    out
}

} // verus!
