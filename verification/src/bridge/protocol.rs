//! Native-messaging framing and the messages exchanged with the browser.
//! A frame is a 4-byte little-endian length followed by that many bytes of
//! JSON.

use vstd::prelude::*;

verus! {

/// A request from the browser extension.
#[derive(Debug, Clone)]
pub enum Incoming {
    QueueDownload {
        url: String,
        filename: Option<String>,
        size: Option<u64>,
        quality: Option<String>,
        source: Option<String>,
        page_url: Option<String>,
        custom_headers: Vec<(String, String)>,
    },
}

/// A progress or error event sent to the browser extension.
#[derive(Debug, Clone)]
pub struct BridgeEvent {
    pub kind: String,
    pub id: String,
    pub status: String,
    pub bytes_done: u64,
    pub total_bytes: Option<u64>,
    pub speed_bps: u64,
    pub eta_seconds: Option<u64>,
    pub segments_done: u32,
    pub segments_total: Option<u32>,
    pub source: Option<String>,
    pub output_path: Option<String>,
    pub message: Option<String>,
}

/// The four little-endian bytes of `n` (taken modulo 2^32).
pub open spec fn le32(n: nat) -> Seq<u8> {
    seq![(n % 256) as u8, ((n / 256) % 256) as u8, ((n / 65536) % 256) as u8, ((n / 16777216) % 256) as u8]
}

/// The number four little-endian bytes encode.
pub open spec fn le32_value(b: Seq<u8>) -> nat {
    (b[0] + 256 * b[1] + 65536 * b[2] + 16777216 * b[3]) as nat
}

/// The frame carrying `body`: its length (modulo 2^32, as the `u32` header
/// holds it) in four little-endian bytes, then the body.
pub open spec fn frame(body: Seq<u8>) -> Seq<u8> {
    le32(body.len()) + body
}

pub fn encode_length(n: usize) -> (r: [u8; 4])
    ensures
        r@ == le32(n as nat),
{
    let b0 = (n % 256) as u8;
    let b1 = ((n / 256) % 256) as u8;
    let b2 = ((n / 65536) % 256) as u8;
    let b3 = ((n / 16777216) % 256) as u8;
    let r = [b0, b1, b2, b3];
    assert(r@ =~= le32(n as nat));
    r
}

/// The length a 4-byte header announces.
pub fn decode_length(header: [u8; 4]) -> (r: u32)
    ensures
        r == le32_value(header@),
{
    (header[0] as u32) + 256 * (header[1] as u32) + 65536 * (header[2] as u32) + 16777216 * (
    header[3] as u32)
}

/// Frames `body` for the browser: 4-byte little-endian length, then `body`.
pub fn encode_frame(body: &[u8]) -> (r: Vec<u8>)
    ensures
        r@ == frame(body@),
{
    let header = encode_length(body.len());
    let mut r: Vec<u8> = Vec::new();
    r.push(header[0]);
    r.push(header[1]);
    r.push(header[2]);
    r.push(header[3]);
    let mut i: usize = 0;
    while i < body.len()
        invariant
            i <= body.len(),
            r@ == header@ + body@.subrange(0, i as int),
        decreases body.len() - i,
    {
        r.push(body[i]);
        i = i + 1;
        assert(r@ =~= header@ + body@.subrange(0, i as int));
    }
    assert(body@.subrange(0, body.len() as int) =~= body@);
    r
}

/// The payload of the first complete frame at the start of `buf`, if `buf`
/// holds one.
pub open spec fn first_frame(buf: Seq<u8>) -> Option<Seq<u8>> {
    if buf.len() < 4 {
        None
    } else if buf.len() < 4 + le32_value(buf.subrange(0, 4)) {
        None
    } else {
        Some(buf.subrange(4, 4 + le32_value(buf.subrange(0, 4)) as int))
    }
}

/// Reads the first frame of `buf`: `None` until `buf` holds the header and
/// the whole payload it announces.
pub fn decode_frame(buf: &[u8]) -> (r: Option<Vec<u8>>)
    ensures
        match first_frame(buf@) {
            Some(p) => r.is_some() && r.unwrap()@ == p,
            None => r.is_none(),
        },
{
    if buf.len() < 4 {
        return None;
    }
    let header = [buf[0], buf[1], buf[2], buf[3]];
    assert(header@ =~= buf@.subrange(0, 4));
    let len = decode_length(header) as usize;
    if buf.len() - 4 < len {
        return None;
    }
    let mut r: Vec<u8> = Vec::new();
    let mut i: usize = 0;
    while i < len
        invariant
            i <= len,
            4 + len <= buf.len(),
            r@ == buf@.subrange(4, 4 + i),
        decreases len - i,
    {
        r.push(buf[4 + i]);
        i = i + 1;
        assert(r@ =~= buf@.subrange(4, 4 + i));
    }
    Some(r)
}

proof fn lemma_le32_roundtrip(n: nat)
    requires
        n < 0x1_0000_0000,
    ensures
        le32_value(le32(n)) == n,
{
    let b = le32(n);
    assert(b[0] == n % 256);
    assert(b[1] == (n / 256) % 256);
    assert(b[2] == (n / 65536) % 256);
    assert(b[3] == (n / 16777216) % 256);
    assert(n % 256 + 256 * ((n / 256) % 256) + 65536 * ((n / 65536) % 256) + 16777216 * ((n
        / 16777216) % 256) == n) by (nonlinear_arith)
        requires
            n < 0x1_0000_0000,
    {
        assert(n == 256 * (n / 256) + n % 256);
        assert(n / 256 == 256 * (n / 65536) + (n / 256) % 256);
        assert(n / 65536 == 256 * (n / 16777216) + (n / 65536) % 256);
        assert(n / 16777216 < 256);
    }
}

/// Law: reading back a frame gives the body that was framed, for every body
/// shorter than 2^32 bytes (the most a `u32` header can announce).
pub proof fn lemma_frame_roundtrip(body: Seq<u8>)
    requires
        body.len() < 0x1_0000_0000,
    ensures
        first_frame(frame(body)) == Some(body),
{
    let f = frame(body);
    lemma_le32_roundtrip(body.len());
    assert(f.subrange(0, 4) =~= le32(body.len()));
    assert(f.subrange(4, 4 + body.len() as int) =~= body);
}

/// Law: a frame announces exactly its payload's length, and frames written
/// one after another are read back one at a time: the bytes after the first
/// frame start the second.
pub proof fn lemma_frames_concatenate(a: Seq<u8>, b: Seq<u8>)
    requires
        a.len() < 0x1_0000_0000,
        b.len() < 0x1_0000_0000,
    ensures
        first_frame(frame(a) + frame(b)) == Some(a),
        (frame(a) + frame(b)).subrange(4 + a.len() as int, (frame(a) + frame(b)).len() as int) == frame(b),
{
    let f = frame(a) + frame(b);
    lemma_le32_roundtrip(a.len());
    assert(f.subrange(0, 4) =~= le32(a.len()));
    assert(f.subrange(4, 4 + a.len() as int) =~= a);
    assert(f.subrange(4 + a.len() as int, f.len() as int) =~= frame(b));
}

} // verus!
