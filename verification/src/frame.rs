//! The frame codec: a four-byte native-order length field followed by
//! exactly that many payload bytes.
//!
//! The spec functions here are the wire format's definition: what length a
//! buffer declares at a position, whether a whole frame is present there,
//! which bytes are its payload, and where the frame ends. The executable
//! encoder and decoder are specified against them, and the lemmas state the
//! codec's laws: a frame built for a payload decodes back to that payload,
//! consuming exactly the frame's bytes and nothing that follows.

use vstd::prelude::*;
use vstd::assert_seqs_equal;

use crate::endian::ne_bytes_of_u32;
use crate::endian::ne_read_u32;
use crate::endian::ne_u32_bytes;
use crate::endian::u32_of_ne_bytes;
use crate::errors::MessagingError;

verus! {

/// The payload length that `buf` declares at position `start`: its four
/// bytes from `start` on, read in the platform's native byte order.
pub open spec fn frame_declared_len(buf: Seq<u8>, start: int) -> int {
    u32_of_ne_bytes(buf.subrange(start, start + 4)) as int
}

/// Whether `buf` holds a complete four-byte length field at `start`.
pub open spec fn header_available(buf: Seq<u8>, start: int) -> bool {
    0 <= start && start + 4 <= buf.len()
}

/// Whether `buf` holds a whole frame at `start`: the length field and as
/// many payload bytes as it declares.
pub open spec fn frame_complete(buf: Seq<u8>, start: int) -> bool {
    header_available(buf, start) && start + 4 + frame_declared_len(buf, start) <= buf.len()
}

/// The payload bytes of the frame at `start`.
pub open spec fn frame_payload(buf: Seq<u8>, start: int) -> Seq<u8> {
    buf.subrange(start + 4, start + 4 + frame_declared_len(buf, start))
}

/// The position just past the frame at `start`: the first byte that belongs
/// to whatever follows the frame.
pub open spec fn frame_end(buf: Seq<u8>, start: int) -> int {
    start + 4 + frame_declared_len(buf, start)
}

/// Whether `f` is one well-formed frame and nothing more: a length field
/// that declares exactly the bytes that follow it.
pub open spec fn is_frame(f: Seq<u8>) -> bool {
    f.len() >= 4 && frame_declared_len(f, 0) == f.len() - 4
}

/// Encodes `payload` as one frame: the four-byte native-order length field,
/// then the payload bytes, in that order and with nothing else — the same
/// bytes for the same payload every time.
///
/// Fails with `Size`, and only with it, exactly when the payload is too long
/// for the wire format's unsigned 32-bit length field.
pub fn encode_frame(payload: &Vec<u8>) -> (r: Result<Vec<u8>, MessagingError>)
    ensures
        match r {
            Ok(f) => {
                &&& payload@.len() <= u32::MAX
                &&& is_frame(f@)
                &&& f@ == ne_bytes_of_u32(payload@.len() as u32) + payload@
                &&& f@.len() == 4 + payload@.len()
                &&& f@.skip(4) == payload@
            },
            Err(e) => payload@.len() > u32::MAX && (e matches MessagingError::Size),
        },
{
    if payload.len() as u64 > u32::MAX as u64 {
        return Err(MessagingError::Size);
    }
    let n: u32 = payload.len() as u32;
    let mut f = ne_u32_bytes(n);
    let ghost header: Seq<u8> = f@;
    let mut i: usize = 0;
    while i < payload.len()
        invariant
            i <= payload@.len(),
            payload@.len() <= u32::MAX,
            header.len() == 4,
            u32_of_ne_bytes(header) == payload@.len() as u32,
            f@ == header + payload@.subrange(0, i as int),
        decreases payload@.len() - i,
    {
        f.push(payload[i]);
        proof {
            assert_seqs_equal!(
                header + payload@.subrange(0, i + 1),
                (header + payload@.subrange(0, i as int)).push(payload@[i as int])
            );
        }
        i = i + 1;
    }
    proof {
        assert_seqs_equal!(payload@.subrange(0, payload@.len() as int), payload@);
        assert_seqs_equal!(f@.subrange(0, 4), header);
        assert_seqs_equal!(f@.skip(4), payload@);
    }
    Ok(f)
}

/// Decodes the frame that `buf` holds at position `start`: reads the
/// four-byte native-order length field, then exactly as many payload bytes
/// as it declares, touching nothing past the frame's end.
///
/// Returns the payload and the position just past the frame, so that a
/// following frame can be decoded from that position. Fails with `Io` when
/// the length field itself is incomplete, with `Size` when the declared
/// length exceeds the platform's addressable range, and with `Truncation`
/// when the buffer ends before the declared payload is complete; each
/// failure comes exactly on the inputs said, and on no others.
pub fn decode_frame(buf: &Vec<u8>, start: usize) -> (r: Result<(Vec<u8>, usize), MessagingError>)
    ensures
        match r {
            Ok((p, next)) => {
                &&& frame_complete(buf@, start as int)
                &&& p@ == frame_payload(buf@, start as int)
                &&& next == frame_end(buf@, start as int)
            },
            Err(e) => match e {
                MessagingError::Io => !header_available(buf@, start as int),
                MessagingError::Size => header_available(buf@, start as int)
                    && frame_declared_len(buf@, start as int) > usize::MAX,
                MessagingError::Truncation => header_available(buf@, start as int)
                    && frame_declared_len(buf@, start as int) <= usize::MAX
                    && !frame_complete(buf@, start as int),
                MessagingError::Json(_) => false,
            },
        },
{
    if buf.len() < 4 || start > buf.len() - 4 {
        return Err(MessagingError::Io);
    }
    let n32 = ne_read_u32(buf[start], buf[start + 1], buf[start + 2], buf[start + 3]);
    proof {
        assert_seqs_equal!(
            seq![
                buf@[start as int],
                buf@[start as int + 1],
                buf@[start as int + 2],
                buf@[start as int + 3]
            ],
            buf@.subrange(start as int, start as int + 4)
        );
    }
    if n32 as u64 > usize::MAX as u64 {
        return Err(MessagingError::Size);
    }
    let n = n32 as usize;
    if buf.len() - (start + 4) < n {
        return Err(MessagingError::Truncation);
    }
    let mut payload: Vec<u8> = Vec::new();
    let mut i: usize = 0;
    while i < n
        invariant
            start + 4 + n <= buf@.len(),
            buf@.len() <= usize::MAX,
            i <= n,
            n == frame_declared_len(buf@, start as int),
            payload@ == buf@.subrange(start as int + 4, start as int + 4 + i as int),
        decreases n - i,
    {
        payload.push(buf[start + 4 + i]);
        proof {
            assert_seqs_equal!(
                buf@.subrange(start as int + 4, start as int + 4 + i + 1),
                buf@.subrange(start as int + 4, start as int + 4 + i as int)
                    .push(buf@[start as int + 4 + i])
            );
        }
        i = i + 1;
    }
    Ok((payload, start + 4 + n))
}

/// Reads a frame's length field alone: the number of payload bytes that the
/// first four bytes of `prefix` declare, widened to the platform's size
/// type.
///
/// Fails with `Io` when fewer than four bytes were handed in, and with
/// `Size` when the declared length exceeds the platform's addressable
/// range.
pub fn payload_length(prefix: &Vec<u8>) -> (r: Result<usize, MessagingError>)
    ensures
        match r {
            Ok(n) => prefix@.len() >= 4 && n == frame_declared_len(prefix@, 0),
            Err(e) => match e {
                MessagingError::Io => prefix@.len() < 4,
                MessagingError::Size => prefix@.len() >= 4
                    && frame_declared_len(prefix@, 0) > usize::MAX,
                _ => false,
            },
        },
{
    if prefix.len() < 4 {
        return Err(MessagingError::Io);
    }
    let n32 = ne_read_u32(prefix[0], prefix[1], prefix[2], prefix[3]);
    proof {
        assert_seqs_equal!(
            seq![prefix@[0], prefix@[1], prefix@[2], prefix@[3]],
            prefix@.subrange(0, 4)
        );
    }
    if n32 as u64 > usize::MAX as u64 {
        return Err(MessagingError::Size);
    }
    Ok(n32 as usize)
}

/// A buffer that carries a well-formed frame `f` at position `start` holds a
/// complete frame there, whose payload is exactly the frame's own payload
/// and whose end is exactly `start + f.len()` — whatever bytes surround the
/// frame. Decoding therefore returns what was framed and consumes the
/// frame's bytes and no others.
pub proof fn lemma_frame_at(buf: Seq<u8>, start: int, f: Seq<u8>)
    requires
        0 <= start,
        start + f.len() <= buf.len(),
        is_frame(f),
        buf.subrange(start, start + f.len()) == f,
    ensures
        frame_complete(buf, start),
        frame_payload(buf, start) == f.skip(4),
        frame_end(buf, start) == start + f.len(),
{
    assert_seqs_equal!(buf.subrange(start, start + 4), f.subrange(0, 4), i => {
        assert(f[i] == buf.subrange(start, start + f.len() as int)[i]);
    });
    assert(frame_declared_len(buf, start) == frame_declared_len(f, 0));
    assert_seqs_equal!(frame_payload(buf, start), f.skip(4), i => {
        assert(f[i + 4] == buf.subrange(start, start + f.len() as int)[i + 4]);
    });
}

/// Round-trip law: a frame built for payload `p`, followed by any trailing
/// bytes at all, decodes back to exactly `p` and ends exactly where the
/// trailing bytes begin.
pub proof fn lemma_round_trip(f: Seq<u8>, p: Seq<u8>, rest: Seq<u8>)
    requires
        is_frame(f),
        f.skip(4) == p,
    ensures
        frame_complete(f + rest, 0),
        frame_payload(f + rest, 0) == p,
        frame_end(f + rest, 0) == 4 + p.len(),
{
    assert_seqs_equal!((f + rest).subrange(0, f.len() as int), f);
    lemma_frame_at(f + rest, 0, f);
    assert(f.skip(4).len() == f.len() - 4);
}

} // verus!
