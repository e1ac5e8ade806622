//! Framing of the upload body: one `audio_file` field of MIME type
//! `audio/ogg` in a `multipart/form-data` body.
//!
//! The body is framed in memory, per request, from the downloaded bytes and a
//! boundary chosen by the caller, so that nothing is shared between two
//! requests in flight at once. The framing is exact: the payload bytes stand
//! unchanged between a fixed head and tail, and can be read back out, which
//! [`lemma_multipart_round_trip`] states.

use vstd::prelude::*;
use vstd::string::StrSliceExecFns;
use vstd::string::StringExecFns;

verus! {

/// Byte values of an ASCII character sequence, one byte per character.
pub open spec fn ascii_bytes(s: Seq<char>) -> Seq<u8> {
    Seq::new(s.len(), |i: int| s[i] as u8)
}

/// The header lines standing between the opening boundary line and the
/// payload: the field name, the file name, and the MIME type.
pub open spec fn part_headers_text() -> Seq<char> {
    "\r\nContent-Disposition: form-data; name=\"audio_file\"; filename=\"audio_file\"\r\nContent-Type: audio/ogg\r\n\r\n"@
}

/// The bytes standing before the payload in the multipart body.
pub open spec fn multipart_head(boundary: Seq<u8>) -> Seq<u8> {
    ascii_bytes("--"@) + boundary + ascii_bytes(part_headers_text())
}

/// The bytes standing after the payload in the multipart body.
pub open spec fn multipart_tail(boundary: Seq<u8>) -> Seq<u8> {
    ascii_bytes("\r\n--"@) + boundary + ascii_bytes("--\r\n"@)
}

/// The whole multipart body carrying `payload` as its one field.
pub open spec fn multipart_body(boundary: Seq<u8>, payload: Seq<u8>) -> Seq<u8> {
    multipart_head(boundary) + payload + multipart_tail(boundary)
}

/// The payload read back out of a multipart body framed with `boundary`:
/// what stands between the head and the tail, if both are present.
pub open spec fn multipart_payload(body: Seq<u8>, boundary: Seq<u8>) -> Option<Seq<u8>> {
    let head = multipart_head(boundary);
    let tail = multipart_tail(boundary);
    if body.len() >= head.len() + tail.len() && body.subrange(0, head.len() as int) == head
        && body.subrange(body.len() - tail.len(), body.len() as int) == tail {
        Some(body.subrange(head.len() as int, body.len() - tail.len()))
    } else {
        None
    }
}

/// Appends the bytes of an ASCII string.
fn append_ascii(out: &mut Vec<u8>, s: &str)
    requires
        s.is_ascii(),
    ensures
        final(out)@ == old(out)@ + ascii_bytes(s@),
{
    let mut b = s.as_bytes_vec();
    proof {
        vstd::string::is_ascii_spec_bytes(s);
        assert(b@ =~= ascii_bytes(s@));
    }
    out.append(&mut b);
}

/// Appends a copy of the given bytes.
fn append_bytes(out: &mut Vec<u8>, b: &Vec<u8>)
    ensures
        final(out)@ == old(out)@ + b@,
{
    let mut i: usize = 0;
    while i < b.len()
        invariant
            i <= b@.len(),
            out@ == old(out)@ + b@.subrange(0, i as int),
        decreases b@.len() - i,
    {
        out.push(b[i]);
        proof {
            assert(b@.subrange(0, i + 1) =~= b@.subrange(0, i as int).push(b@[i as int]));
        }
        i = i + 1;
    }
    proof {
        assert(b@.subrange(0, b@.len() as int) =~= b@);
    }
}

/// Builds the bytes standing before the payload.
fn multipart_head_bytes(boundary: &Vec<u8>) -> (r: Vec<u8>)
    ensures
        r@ == multipart_head(boundary@),
{
    proof {
        reveal_strlit("--");
        reveal_strlit(
            "\r\nContent-Disposition: form-data; name=\"audio_file\"; filename=\"audio_file\"\r\nContent-Type: audio/ogg\r\n\r\n",
        );
    }
    let mut r: Vec<u8> = Vec::new();
    append_ascii(&mut r, "--");
    append_bytes(&mut r, boundary);
    append_ascii(
        &mut r,
        "\r\nContent-Disposition: form-data; name=\"audio_file\"; filename=\"audio_file\"\r\nContent-Type: audio/ogg\r\n\r\n",
    );
    proof {
        assert(r@ =~= multipart_head(boundary@));
    }
    r
}

/// Builds the bytes standing after the payload.
fn multipart_tail_bytes(boundary: &Vec<u8>) -> (r: Vec<u8>)
    ensures
        r@ == multipart_tail(boundary@),
{
    proof {
        reveal_strlit("\r\n--");
        reveal_strlit("--\r\n");
    }
    let mut r: Vec<u8> = Vec::new();
    append_ascii(&mut r, "\r\n--");
    append_bytes(&mut r, boundary);
    append_ascii(&mut r, "--\r\n");
    proof {
        assert(r@ =~= multipart_tail(boundary@));
    }
    r
}

/// Frames `payload` as the one `audio_file` field of a multipart body with
/// the given boundary.
pub fn encode_multipart(boundary: &Vec<u8>, payload: &Vec<u8>) -> (body: Vec<u8>)
    ensures
        body@ == multipart_body(boundary@, payload@),
{
    let mut body = multipart_head_bytes(boundary);
    append_bytes(&mut body, payload);
    let mut tail = multipart_tail_bytes(boundary);
    body.append(&mut tail);
    proof {
        assert(body@ =~= multipart_body(boundary@, payload@));
    }
    body
}

/// Reads the payload back out of a multipart body framed with `boundary`, as
/// [`multipart_payload`] states: the bytes between the head and the tail,
/// or nothing where the framing is not present.
pub fn extract_multipart_payload(body: &Vec<u8>, boundary: &Vec<u8>) -> (r: Option<Vec<u8>>)
    ensures
        match r {
            Some(p) => multipart_payload(body@, boundary@) == Some(p@),
            None => multipart_payload(body@, boundary@) is None,
        },
{
    let head = multipart_head_bytes(boundary);
    let tail = multipart_tail_bytes(boundary);
    if body.len() < head.len() {
        return None;
    }
    if body.len() - head.len() < tail.len() {
        return None;
    }
    let mut i: usize = 0;
    while i < head.len()
        invariant
            i <= head@.len() <= body@.len(),
            head@ == multipart_head(boundary@),
            forall|k: int| 0 <= k < i ==> body@[k] == head@[k],
        decreases head@.len() - i,
    {
        if body[i] != head[i] {
            proof {
                assert(body@.subrange(0, head@.len() as int)[i as int] == body@[i as int]);
            }
            return None;
        }
        i = i + 1;
    }
    proof {
        assert(body@.subrange(0, head@.len() as int) =~= head@);
    }
    let split: usize = body.len() - tail.len();
    let mut j: usize = 0;
    while j < tail.len()
        invariant
            j <= tail@.len(),
            split == body@.len() - tail@.len(),
            head@.len() + tail@.len() <= body@.len() <= usize::MAX,
            tail@ == multipart_tail(boundary@),
            forall|k: int| 0 <= k < j ==> body@[split + k] == tail@[k],
        decreases tail@.len() - j,
    {
        if body[split + j] != tail[j] {
            proof {
                assert(body@.subrange(body@.len() - tail@.len(), body@.len() as int)[j as int]
                    == body@[split + j]);
            }
            return None;
        }
        j = j + 1;
    }
    proof {
        assert(body@.subrange(body@.len() - tail@.len(), body@.len() as int) =~= tail@);
    }
    let mut payload: Vec<u8> = Vec::new();
    let mut k: usize = head.len();
    while k < split
        invariant
            head@.len() <= k <= split <= body@.len(),
            payload@ == body@.subrange(head@.len() as int, k as int),
        decreases split - k,
    {
        payload.push(body[k]);
        proof {
            assert(body@.subrange(head@.len() as int, k + 1) =~= body@.subrange(
                head@.len() as int,
                k as int,
            ).push(body@[k as int]));
        }
        k = k + 1;
    }
    proof {
        assert(payload@ == body@.subrange(head@.len() as int, body@.len() - tail@.len()));
    }
    Some(payload)
}

/// The framing keeps every payload byte: a body framed with a boundary reads
/// back to exactly the payload it was framed from, and its length is the
/// payload's length plus the fixed framing overhead for that boundary.
pub proof fn lemma_multipart_round_trip(boundary: Seq<u8>, payload: Seq<u8>)
    ensures
        multipart_payload(multipart_body(boundary, payload), boundary) == Some(payload),
        multipart_body(boundary, payload).len() == multipart_head(boundary).len() + payload.len()
            + multipart_tail(boundary).len(),
{
    let body = multipart_body(boundary, payload);
    let head = multipart_head(boundary);
    let tail = multipart_tail(boundary);
    assert(body.subrange(0, head.len() as int) =~= head);
    assert(body.subrange(body.len() - tail.len(), body.len() as int) =~= tail);
    assert(body.subrange(head.len() as int, body.len() - tail.len()) =~= payload);
}

/// Two requests in flight at once cannot corrupt each other's bytes: each
/// framed body reads back to exactly its own payload, whatever the other
/// request framed.
pub proof fn lemma_concurrent_uploads_independent(
    boundary1: Seq<u8>,
    payload1: Seq<u8>,
    boundary2: Seq<u8>,
    payload2: Seq<u8>,
)
    ensures
        multipart_payload(multipart_body(boundary1, payload1), boundary1) == Some(payload1),
        multipart_payload(multipart_body(boundary2, payload2), boundary2) == Some(payload2),
{
    lemma_multipart_round_trip(boundary1, payload1);
    lemma_multipart_round_trip(boundary2, payload2);
}

/// Value of the `Content-Type` header that announces a multipart body with
/// the given boundary.
pub fn multipart_content_type(boundary: &str) -> (r: String)
    ensures
        r@ == "multipart/form-data; boundary="@ + boundary@,
{
    let mut r = "multipart/form-data; boundary=".to_owned();
    r.append(boundary);
    r
}

} // verus!
