//! Framing of replies and notifications: a 16-byte header followed by the
//! payload segments, handed back as one buffer so that the caller sends it
//! in a single write.
use crate::abi::{OutHeader, OUT_HEADER_SIZE};
use crate::decoder::{encode, to_bytes};
use crate::wire::append_bytes;
use vstd::prelude::*;

verus! {

/// The payload segments as byte sequences.
pub open spec fn seg_views(segs: Seq<Vec<u8>>) -> Seq<Seq<u8>> {
    segs.map_values(|s: Vec<u8>| s@)
}

/// Total length of the payload segments.
pub open spec fn payload_len(segs: Seq<Seq<u8>>) -> nat {
    segs.flatten().len()
}

/// The value of a header's `error` field for a reply carrying `errno`:
/// its negation, clamped to the `i32` range.
pub open spec fn negated_errno(errno: i32) -> i32 {
    if errno == i32::MIN {
        i32::MAX
    } else {
        (-errno) as i32
    }
}

/// The bytes of a frame: a header with `len` = 16 + payload length, the given
/// `error` field and `unique`, followed by the segments in order.
pub open spec fn frame_bytes(unique: u64, error: i32, segs: Seq<Seq<u8>>) -> Seq<u8> {
    encode(OutHeader { len: (OUT_HEADER_SIZE + payload_len(segs)) as u32, error, unique })
        + segs.flatten()
}

/// A frame fits the 32-bit `len` field of its header.
pub open spec fn frame_fits(segs: Seq<Seq<u8>>) -> bool {
    OUT_HEADER_SIZE + payload_len(segs) <= u32::MAX
}

/// Why a frame could not be built.
#[derive(Clone, Copy, Debug, PartialEq, Eq, Structural)]
pub enum ReplyError {
    /// The payload is too long for the header's `len` field.
    TooLong,
}

/// Concatenate the segments, giving up once the total exceeds `limit`.
pub(crate) fn concat_within(segs: &[Vec<u8>], limit: usize) -> (r: Option<Vec<u8>>)
    ensures
        payload_len(seg_views(segs@)) <= limit ==> (r matches Some(b) && b@ == seg_views(
            segs@,
        ).flatten()),
        payload_len(seg_views(segs@)) > limit ==> r is None,
{
    broadcast use Seq::lemma_flatten_push;

    let mut out: Vec<u8> = Vec::new();
    let mut i: usize = 0;
    while i < segs.len()
        invariant
            i <= segs@.len(),
            out@ == seg_views(segs@.take(i as int)).flatten(),
            out@.len() <= limit,
        decreases segs@.len() - i,
    {
        let ghost before = segs@.take(i as int);
        assert(segs@.take(i + 1) =~= before.push(segs@[i as int]));
        assert(seg_views(segs@.take(i + 1)) =~= seg_views(before).push(segs@[i as int]@));
        proof {
            seg_views(before).lemma_flatten_push(segs@[i as int]@);
        }
        let seg = &segs[i];
        if seg.len() > limit - out.len() {
            proof {
                lemma_flatten_prefix_le(seg_views(segs@), i + 1);
                assert(seg_views(segs@).take(i + 1) =~= seg_views(segs@.take(i + 1)));
            }
            return None;
        }
        append_bytes(&mut out, seg.as_slice());
        i = i + 1;
    }
    assert(segs@.take(i as int) =~= segs@);
    Some(out)
}

/// A prefix of the segments is no longer, once flattened, than all of them.
proof fn lemma_flatten_prefix_le(s: Seq<Seq<u8>>, n: int)
    requires
        0 <= n <= s.len(),
    ensures
        s.take(n).flatten().len() <= s.flatten().len(),
    decreases s.len() - n,
{
    broadcast use Seq::lemma_flatten_push;

    if n < s.len() {
        lemma_flatten_prefix_le(s, n + 1);
        assert(s.take(n + 1) =~= s.take(n).push(s[n]));
        s.take(n).lemma_flatten_push(s[n]);
    } else {
        assert(s.take(n) =~= s);
    }
}

/// Build a frame with the given header `error` field.
fn frame(unique: u64, error: i32, segs: &[Vec<u8>]) -> (r: Result<Vec<u8>, ReplyError>)
    ensures
        frame_fits(seg_views(segs@)) ==> (r matches Ok(b) && b@ == frame_bytes(
            unique,
            error,
            seg_views(segs@),
        )),
        !frame_fits(seg_views(segs@)) ==> r == Err::<Vec<u8>, ReplyError>(ReplyError::TooLong),
{
    let limit: usize = 0xFFFF_FFEF;
    match concat_within(segs, limit) {
        Some(payload) => {
            let len = (OUT_HEADER_SIZE + payload.len()) as u32;
            let header = OutHeader { len, error, unique };
            let mut out = to_bytes(&header);
            append_bytes(&mut out, payload.as_slice());
            Ok(out)
        },
        None => Err(ReplyError::TooLong),
    }
}

/// Frame a reply to request `unique`: `error` is 0 for success, or a positive
/// error number, which the header carries negated.
pub fn send_reply(unique: u64, error: i32, data: &[Vec<u8>]) -> (r: Result<Vec<u8>, ReplyError>)
    ensures
        frame_fits(seg_views(data@)) ==> (r matches Ok(b) && b@ == frame_bytes(
            unique,
            negated_errno(error),
            seg_views(data@),
        )),
        !frame_fits(seg_views(data@)) ==> r == Err::<Vec<u8>, ReplyError>(ReplyError::TooLong),
{
    let e = if error == i32::MIN {
        i32::MAX
    } else {
        -error
    };
    frame(unique, e, data)
}

/// Frame a successful reply to request `unique` carrying the given segments.
pub fn reply_frame(unique: u64, data: &[Vec<u8>]) -> (r: Result<Vec<u8>, ReplyError>)
    ensures
        frame_fits(seg_views(data@)) ==> (r matches Ok(b) && b@ == frame_bytes(
            unique,
            0,
            seg_views(data@),
        )),
        !frame_fits(seg_views(data@)) ==> r == Err::<Vec<u8>, ReplyError>(ReplyError::TooLong),
{
    frame(unique, 0, data)
}

/// Frame an error reply to request `unique`: a bare header whose `error`
/// field is `errno` negated (clamped to the `i32` range).
pub fn error_frame(unique: u64, errno: i32) -> (r: Vec<u8>)
    ensures
        r@ == frame_bytes(unique, negated_errno(errno), Seq::empty()),
{
    let empty: Vec<Vec<u8>> = Vec::new();
    proof {
        assert(seg_views(empty@) =~= Seq::<Seq<u8>>::empty());
    }
    match send_reply(unique, errno, empty.as_slice()) {
        Ok(b) => b,
        Err(_) => Vec::new(),
    }
}

/// Frame a notification: `unique` is 0 and the header's `error` field holds
/// the notification code.
pub fn notify_frame(code: i32, data: &[Vec<u8>]) -> (r: Result<Vec<u8>, ReplyError>)
    ensures
        frame_fits(seg_views(data@)) ==> (r matches Ok(b) && b@ == frame_bytes(
            0,
            code,
            seg_views(data@),
        )),
        !frame_fits(seg_views(data@)) ==> r == Err::<Vec<u8>, ReplyError>(ReplyError::TooLong),
{
    frame(0, code, data)
}

} // verus!
