//! The BLE byte-framing protocol: outbound chunking of a length-prefixed
//! message body into MTU-sized frames, and validation of inbound
//! notification frames during reassembly.
//!
//! Outbound frame layout: `[cmd_or_continuation:1][seq_be:2][chunk_bytes...]`
//! with chunk size `MTU - 3`. The logical body before chunking is
//! `[len_be:2][payload...]`. Inbound notification frames carry
//! `[type_tag:1][reserved:3][len:1][payload_chunk...]`; the total length is
//! declared once, in the first frame, as a single byte (the inbound width is
//! deliberately one byte, narrower than the two-byte outbound prefix).

use vstd::prelude::*;

use vstd::arithmetic::div_mod::{lemma_fundamental_div_mod, lemma_mod_bound};
use vstd::arithmetic::mul::lemma_mul_inequality;

use crate::Error;

verus! {

/// Marker prefixing every outbound frame after the first.
pub const CONTINUATION_TAG: u8 = 0x03;

/// Type tag expected on the first inbound notification frame, and the
/// command byte used when exchanging APDUs.
pub const RESPONSE_TAG: u8 = 0x05;

/// Bytes of framing overhead per outbound frame: one command byte and a
/// two-byte big-endian sequence number.
pub const FRAME_HEADER_LEN: u8 = 3;

/// The logical message body: a two-byte big-endian length prefix followed by
/// the payload bytes.
pub open spec fn message_body(payload: Seq<u8>) -> Seq<u8>
    recommends
        payload.len() <= 0xFFFF,
{
    seq![(payload.len() as int / 256) as u8, (payload.len() as int % 256) as u8] + payload
}

/// Number of frames a body of length `body_len` occupies at chunk size `csz`
/// (the ceiling of `body_len / csz`).
pub open spec fn chunk_count(body_len: int, csz: int) -> int
    recommends
        body_len >= 1,
        csz >= 1,
{
    (body_len + csz - 1) / csz
}

/// The three header bytes of the frame with index `i`: the command byte on
/// the first frame, the continuation marker afterwards, then `i` as a
/// big-endian sequence number truncated to sixteen bits.
pub open spec fn frame_header(cmd: u8, i: int) -> Seq<u8> {
    seq![
        if i == 0 { cmd } else { CONTINUATION_TAG },
        ((i / 256) % 256) as u8,
        (i % 256) as u8,
    ]
}

/// The frame with index `i` of a chunked body.
pub open spec fn frame_at(cmd: u8, body: Seq<u8>, csz: int, i: int) -> Seq<u8>
    recommends
        csz >= 1,
        0 <= i < chunk_count(body.len() as int, csz),
{
    frame_header(cmd, i) + body.subrange(
        i * csz,
        vstd::math::min(body.len() as int, (i + 1) * csz),
    )
}

/// All frames of a chunked body, in ascending index order.
pub open spec fn frames_of(cmd: u8, body: Seq<u8>, csz: int) -> Seq<Seq<u8>>
    recommends
        body.len() >= 1,
        csz >= 1,
{
    Seq::new(chunk_count(body.len() as int, csz) as nat, |i: int| frame_at(cmd, body, csz, i))
}

/// The bytes an outbound frame contributes to the body: everything past the
/// three header bytes. A frame shorter than its header contributes nothing.
pub open spec fn frame_body(frame: Seq<u8>) -> Seq<u8> {
    if frame.len() >= 3 {
        frame.skip(3)
    } else {
        Seq::empty()
    }
}

/// The inverse reassembler for outbound frames: strip each frame's header
/// and concatenate the rest, in order.
pub open spec fn unchunked(frames: Seq<Seq<u8>>) -> Seq<u8>
    decreases frames.len(),
{
    if frames.len() == 0 {
        Seq::empty()
    } else {
        unchunked(frames.drop_last()) + frame_body(frames.last())
    }
}

/// Bounds of the ceiling division used for the frame count: `n` frames of
/// `csz` bytes cover the body, and `n - 1` do not.
proof fn lemma_ceil_bounds(l: int, csz: int)
    requires
        l >= 1,
        csz >= 1,
    ensures
        chunk_count(l, csz) >= 1,
        chunk_count(l, csz) * csz >= l,
        (chunk_count(l, csz) - 1) * csz < l,
{
    let x = l + csz - 1;
    let n = x / csz;
    lemma_fundamental_div_mod(x, csz);
    lemma_mod_bound(x, csz);
    assert(csz * n == x - x % csz);
    assert(n * csz == csz * n) by (nonlinear_arith);
    assert((n - 1) * csz == n * csz - csz) by (nonlinear_arith);
    if n < 1 {
        assert(n * csz <= 0) by (nonlinear_arith)
            requires
                n <= 0,
                csz >= 1,
        ;
    }
}

/// Reassembling the first `k` frames of a chunked body yields the first
/// `k * csz` bytes of the body (all of it once `k * csz` passes the end).
proof fn lemma_unchunk_take(cmd: u8, body: Seq<u8>, csz: int, k: int)
    requires
        body.len() >= 1,
        csz >= 1,
        0 <= k <= chunk_count(body.len() as int, csz),
    ensures
        unchunked(frames_of(cmd, body, csz).take(k)) == body.take(
            vstd::math::min(k * csz, body.len() as int),
        ),
    decreases k,
{
    let l = body.len() as int;
    let n = chunk_count(l, csz);
    let frames = frames_of(cmd, body, csz);
    lemma_ceil_bounds(l, csz);
    if k == 0 {
        assert(unchunked(frames.take(0)) =~= body.take(0));
    } else {
        lemma_unchunk_take(cmd, body, csz, k - 1);
        assert(frames.take(k).drop_last() =~= frames.take(k - 1));
        assert(frames.take(k).last() == frame_at(cmd, body, csz, k - 1));
        lemma_mul_inequality(k - 1, n - 1, csz);
        assert((k - 1) * csz <= (n - 1) * csz);
        assert(k * csz == (k - 1) * csz + csz) by (nonlinear_arith);
        let lo = (k - 1) * csz;
        let hi = vstd::math::min(k * csz, l);
        assert(lo < l);
        assert(lo <= hi <= l);
        let piece = body.subrange(lo, hi);
        assert(frame_body(frame_at(cmd, body, csz, k - 1)) =~= piece);
        assert(vstd::math::min(lo, l) == lo);
        assert(body.take(lo) + piece =~= body.take(hi));
        assert(unchunked(frames.take(k)) == unchunked(frames.take(k).drop_last()) + frame_body(
            frames.take(k).last(),
        ));
        assert(unchunked(frames.take(k)) == body.take(lo) + piece);
    }
}

/// A chunked body yields at least one frame, and exactly the ceiling count.
pub proof fn lemma_frame_count(cmd: u8, body: Seq<u8>, csz: int)
    requires
        body.len() >= 1,
        csz >= 1,
    ensures
        chunk_count(body.len() as int, csz) >= 1,
        frames_of(cmd, body, csz).len() == chunk_count(body.len() as int, csz),
{
    lemma_ceil_bounds(body.len() as int, csz);
}

/// Chunk/reassembly round trip: for any payload and any MTU larger than the
/// frame header, the chunked frames of the logical body number exactly the
/// ceiling of `(payload length + 2) / (MTU - 3)`; the first frame starts
/// with the command byte and every other frame with the continuation
/// marker; sequence numbers run upward from zero; and stripping the headers
/// and concatenating the rest restores the body exactly.
pub proof fn lemma_chunk_roundtrip(cmd: u8, payload: Seq<u8>, mtu: u8)
    requires
        mtu > 3,
        payload.len() <= 0xFFFF,
    ensures
        ({
            let body = message_body(payload);
            let csz = mtu - 3;
            let frames = frames_of(cmd, body, csz as int);
            &&& frames.len() == chunk_count(payload.len() as int + 2, csz as int)
            &&& frames.len() >= 1
            &&& unchunked(frames) == body
            &&& forall|i: int|
                0 <= i < frames.len() ==> (#[trigger] frames[i]).len() >= 3
            &&& frames[0][0] == cmd
            &&& forall|i: int| 1 <= i < frames.len() ==> (#[trigger] frames[i])[0] == CONTINUATION_TAG
            &&& forall|i: int|
                0 <= i < frames.len() ==> (#[trigger] frames[i])[1] == ((i / 256) % 256) as u8
                    && frames[i][2] == (i % 256) as u8
        }),
{
    let body = message_body(payload);
    let csz = (mtu - 3) as int;
    let l = body.len() as int;
    let n = chunk_count(l, csz);
    let frames = frames_of(cmd, body, csz);
    lemma_ceil_bounds(l, csz);
    lemma_unchunk_take(cmd, body, csz, n);
    assert(frames.take(n) =~= frames);
    assert(n * csz >= l);
    assert(body.take(vstd::math::min(n * csz, l)) =~= body);
    assert forall|i: int| 0 <= i < frames.len() implies (#[trigger] frames[i]).len() >= 3 by {
        lemma_mul_inequality(i, n - 1, csz);
        assert(i * csz <= (n - 1) * csz);
        assert((i + 1) * csz == i * csz + csz) by (nonlinear_arith);
        assert(frames[i] == frame_at(cmd, body, csz, i));
    }
    assert(frames[0] == frame_at(cmd, body, csz, 0));
    assert forall|i: int| 1 <= i < frames.len() implies (#[trigger] frames[i])[0]
        == CONTINUATION_TAG by {
        assert(frames[i] == frame_at(cmd, body, csz, i));
    }
    assert forall|i: int|
        0 <= i < frames.len() implies (#[trigger] frames[i])[1] == ((i / 256) % 256) as u8
        && frames[i][2] == (i % 256) as u8 by {
        assert(frames[i] == frame_at(cmd, body, csz, i));
    }
}

/// Result of validating the first inbound notification frame: the declared
/// total response length and the payload bytes the frame already carries.
///
/// A frame shorter than five bytes, or one whose type tag is not the
/// response tag, is `UnexpectedResponse`; a declared length of zero is
/// `EmptyResponse`.
pub open spec fn first_frame_result(frame: Seq<u8>) -> Result<(u8, Seq<u8>), Error> {
    if frame.len() < 5 {
        Err(Error::UnexpectedResponse)
    } else if frame[0] != RESPONSE_TAG {
        Err(Error::UnexpectedResponse)
    } else if frame[4] == 0u8 {
        Err(Error::EmptyResponse)
    } else {
        Ok((frame[4], frame.skip(5)))
    }
}

/// The bytes a continuation notification frame contributes during
/// reassembly: everything past the five header bytes, with no re-validation
/// of the type tag. A frame shorter than the header contributes nothing.
pub open spec fn continuation_body(frame: Seq<u8>) -> Seq<u8> {
    if frame.len() >= 5 {
        frame.skip(5)
    } else {
        Seq::empty()
    }
}

/// Split the logical message body into outbound frames.
///
/// Frames are produced in ascending sequence order; writing them in this
/// order, each confirmed before the next is sent, is the write policy the
/// session layer follows.
pub fn chunk_payload(cmd: u8, payload: &Vec<u8>, mtu: u8) -> (r: Vec<Vec<u8>>)
    requires
        mtu > 3,
        payload@.len() <= 0xFFFF,
    ensures
        r.deep_view() == frames_of(cmd, message_body(payload@), mtu - 3),
{
    let ghost gbody = message_body(payload@);
    let len16: u16 = payload.len() as u16;
    assert(len16 == payload@.len());
    let mut body: Vec<u8> = Vec::new();
    body.push((len16 / 256) as u8);
    body.push((len16 % 256) as u8);
    let ghost prefix = seq![
        (payload@.len() as int / 256) as u8,
        (payload@.len() as int % 256) as u8,
    ];
    assert(body@ =~= prefix);
    assert(prefix + payload@.take(0) =~= prefix);
    let mut j: usize = 0;
    while j < payload.len()
        invariant
            j <= payload@.len() <= 0xFFFF,
            prefix == seq![
                (payload@.len() as int / 256) as u8,
                (payload@.len() as int % 256) as u8,
            ],
            body@ == prefix + payload@.take(j as int),
        decreases payload@.len() - j,
    {
        assert(prefix + payload@.take(j as int + 1) =~= (prefix + payload@.take(j as int)).push(
            payload@[j as int],
        ));
        body.push(payload[j]);
        j += 1;
    }
    assert(body@ =~= gbody);
    let csz: usize = (mtu - FRAME_HEADER_LEN) as usize;
    proof {
        lemma_ceil_bounds(body@.len() as int, csz as int);
    }
    let n: usize = (body.len() + csz - 1) / csz;
    let ghost gframes = frames_of(cmd, gbody, csz as int);
    let mut frames: Vec<Vec<u8>> = Vec::new();
    let mut i: usize = 0;
    while i < n
        invariant
            i <= n,
            n == chunk_count(gbody.len() as int, csz as int),
            csz >= 1,
            1 <= gbody.len() <= 0x10001,
            body@ == gbody,
            gframes == frames_of(cmd, gbody, csz as int),
            frames.deep_view() == gframes.take(i as int),
        decreases n - i,
    {
        proof {
            lemma_ceil_bounds(gbody.len() as int, csz as int);
            lemma_mul_inequality(i as int, n - 1, csz as int);
            assert((i as int) * (csz as int) <= (n - 1) * (csz as int) < gbody.len());
            assert((i as int + 1) * (csz as int) == (i as int) * (csz as int) + csz)
                by (nonlinear_arith);
        }
        let mut f: Vec<u8> = Vec::new();
        if i == 0 {
            f.push(cmd);
        } else {
            f.push(CONTINUATION_TAG);
        }
        f.push(((i / 256) % 256) as u8);
        f.push((i % 256) as u8);
        let start: usize = i * csz;
        let end: usize = if csz <= body.len() - start {
            start + csz
        } else {
            body.len()
        };
        assert(f@ =~= frame_header(cmd, i as int));
        let mut k: usize = start;
        while k < end
            invariant
                start <= k <= end <= body@.len(),
                body@ == gbody,
                f@ == frame_header(cmd, i as int) + gbody.subrange(start as int, k as int),
            decreases end - k,
        {
            assert(frame_header(cmd, i as int) + gbody.subrange(start as int, k + 1 as int)
                =~= (frame_header(cmd, i as int) + gbody.subrange(start as int, k as int)).push(
                gbody[k as int],
            ));
            f.push(body[k]);
            k += 1;
        }
        assert(f@ =~= frame_at(cmd, gbody, csz as int, i as int));
        assert(f.deep_view() =~= f@);
        let ghost dvpre = frames.deep_view();
        frames.push(f);
        assert(gframes[i as int] == frame_at(cmd, gbody, csz as int, i as int));
        assert(frames.deep_view() =~= dvpre.push(gframes[i as int]));
        assert(dvpre.push(gframes[i as int]) =~= gframes.take(i + 1 as int));
        i += 1;
    }
    assert(gframes.take(n as int) =~= gframes);
    frames
}

/// The inverse reassembler for outbound frames: strip each frame's
/// three-byte header and concatenate the rest, in order.
pub fn unchunk_frames(frames: &Vec<Vec<u8>>) -> (r: Vec<u8>)
    ensures
        r@ == unchunked(frames.deep_view()),
{
    let mut r: Vec<u8> = Vec::new();
    let mut i: usize = 0;
    while i < frames.len()
        invariant
            i <= frames@.len(),
            r@ == unchunked(frames.deep_view().take(i as int)),
        decreases frames@.len() - i,
    {
        let f = &frames[i];
        assert(f@ =~= frames.deep_view()[i as int]);
        let ghost rpre = r@;
        let mut k: usize = if f.len() >= 3 {
            3
        } else {
            f.len()
        };
        while k < f.len()
            invariant
                3 <= k <= f@.len() || (k == f@.len() && f@.len() < 3),
                f@ == frames.deep_view()[i as int],
                i < frames@.len(),
                r@ == rpre + (if f@.len() >= 3 {
                    f@.subrange(3, k as int)
                } else {
                    Seq::<u8>::empty()
                }),
            decreases f@.len() - k,
        {
            assert(f@.subrange(3, k + 1 as int) =~= f@.subrange(3, k as int).push(f@[k as int]));
            r.push(f[k]);
            k += 1;
        }
        assert(r@ =~= rpre + frame_body(frames.deep_view()[i as int]));
        assert(frames.deep_view().take(i + 1 as int).drop_last() =~= frames.deep_view().take(
            i as int,
        ));
        i += 1;
    }
    assert(frames.deep_view().take(frames@.len() as int) =~= frames.deep_view());
    r
}

/// Validate the first inbound notification frame and extract the declared
/// response length and the payload bytes it carries.
pub fn parse_first_frame(frame: &Vec<u8>) -> (r: Result<(u8, Vec<u8>), Error>)
    ensures
        match r {
            Ok(p) => first_frame_result(frame@) == Ok::<(u8, Seq<u8>), Error>((p.0, p.1@)),
            Err(e) => first_frame_result(frame@) == Err::<(u8, Seq<u8>), Error>(e),
        },
{
    if frame.len() < 5 {
        return Err(Error::UnexpectedResponse);
    }
    if frame[0] != RESPONSE_TAG {
        return Err(Error::UnexpectedResponse);
    }
    let need = frame[4];
    if need == 0 {
        return Err(Error::EmptyResponse);
    }
    let mut acc: Vec<u8> = Vec::new();
    let mut k: usize = 5;
    while k < frame.len()
        invariant
            5 <= k <= frame@.len(),
            acc@ == frame@.subrange(5, k as int),
        decreases frame@.len() - k,
    {
        assert(frame@.subrange(5, k + 1 as int) =~= frame@.subrange(5, k as int).push(
            frame@[k as int],
        ));
        acc.push(frame[k]);
        k += 1;
    }
    assert(acc@ =~= frame@.skip(5));
    Ok((need, acc))
}

/// Extract the payload bytes a continuation frame contributes.
pub fn parse_continuation_frame(frame: &Vec<u8>) -> (r: Vec<u8>)
    ensures
        r@ == continuation_body(frame@),
{
    let mut acc: Vec<u8> = Vec::new();
    if frame.len() < 5 {
        return acc;
    }
    let mut k: usize = 5;
    while k < frame.len()
        invariant
            5 <= k <= frame@.len(),
            acc@ == frame@.subrange(5, k as int),
        decreases frame@.len() - k,
    {
        assert(frame@.subrange(5, k + 1 as int) =~= frame@.subrange(5, k as int).push(
            frame@[k as int],
        ));
        acc.push(frame[k]);
        k += 1;
    }
    assert(acc@ =~= frame@.skip(5));
    acc
}

} // verus!
