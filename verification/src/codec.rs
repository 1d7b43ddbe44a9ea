//! The message codec: frames a serde_json value into the wire format and
//! back.
//!
//! The framing is the verified work of [`crate::frame`]; serde_json does the
//! serialization behind the trusted wrappers below. A message value is
//! opaque here, and what serde_json makes of it is abstracted by two names:
//! [`json_bytes_of`], the bytes it serializes a value to, and
//! [`json_value_of`], the value it parses accepted bytes to. What is proved
//! is that every written frame is well-formed and carries exactly the
//! message's serialization, and that reading consumes exactly one frame,
//! succeeds exactly on the payloads that serde_json's parser accepts, and
//! returns exactly the value parsed from the payload.

use vstd::prelude::*;

use crate::endian::ne_bytes_of_u32;
use crate::errors::MessagingError;
use crate::frame::decode_frame;
use crate::frame::encode_frame;
use crate::frame::frame_complete;
use crate::frame::frame_declared_len;
use crate::frame::frame_end;
use crate::frame::frame_payload;
use crate::frame::header_available;
use crate::frame::is_frame;

verus! {

/// Declaration of serde_json's value type; the codec carries it through
/// opaquely.
#[verifier::external_type_specification]
#[verifier::external_body]
pub struct ExJsonValue(serde_json::Value);

/// Whether serde_json's parser accepts the bytes as one JSON value. The
/// outcome depends on the bytes alone.
pub uninterp spec fn json_accepts(b: Seq<u8>) -> bool;

/// The bytes that serde_json serializes a value to. The output depends on
/// the value alone: a value's maps are ordered, and numbers and strings
/// have one fixed rendering each.
pub uninterp spec fn json_bytes_of(v: serde_json::Value) -> Seq<u8>;

/// The value that serde_json parses accepted bytes to. The outcome depends
/// on the bytes alone; on bytes the parser rejects it is unconstrained.
pub uninterp spec fn json_value_of(b: Seq<u8>) -> serde_json::Value;

/// Relies on serde_json::from_slice: it deserializes one JSON value from
/// the bytes; whether it succeeds, and what value it returns, depend on the
/// bytes alone.
#[verifier::external_body]
fn json_from_slice(b: &Vec<u8>) -> (r: Result<serde_json::Value, serde_json::Error>)
    ensures
        r.is_ok() == json_accepts(b@),
        r matches Ok(m) ==> m == json_value_of(b@),
{
    serde_json::from_slice(b.as_slice())
}

/// Relies on serde_json::to_vec: it serializes the value as a JSON byte
/// vector, and the bytes depend on the value alone. For `serde_json::Value`
/// it cannot fail: the documented failure causes — a `Serialize` impl that
/// decides to fail, or a map with non-string keys — do not arise, since
/// `Value`'s own `Serialize` impl only writes the value out and its maps
/// are keyed by `String`. And when the parser accepts the produced bytes
/// (deep enough nesting can exceed its recursion limit), it parses them
/// back to the value that was serialized; for floating-point numbers this
/// exactness is what serde_json's `float_roundtrip` feature, enabled in
/// Cargo.toml, provides.
#[verifier::external_body]
fn json_to_vec(v: &serde_json::Value) -> (r: Result<Vec<u8>, serde_json::Error>)
    ensures
        r.is_ok(),
        r matches Ok(b) ==> b@ == json_bytes_of(*v),
        r matches Ok(b) ==> (json_accepts(b@) ==> json_value_of(b@) == *v),
{
    serde_json::to_vec(v)
}

/// Serializes `message` and appends it to `out` as one frame: the four-byte
/// native-order length field, then the serialized payload, which is exactly
/// the message's serialization.
///
/// Succeeds exactly when the serialized payload fits the wire format's
/// unsigned 32-bit length field; then one well-formed frame carrying that
/// payload has been appended and the bytes already in `out` stand
/// untouched, so that the written bytes are a function of the message
/// alone. On failure `out` is unchanged and the error is `Size`. The `Ok`
/// case also carries the round-trip guarantee: when the parser accepts the
/// written payload, it parses back to `message`.
pub fn write_message(message: &serde_json::Value, out: &mut Vec<u8>) -> (r: Result<
    (),
    MessagingError,
>)
    ensures
        match r {
            Ok(()) => {
                &&& json_bytes_of(*message).len() <= u32::MAX
                &&& final(out)@ == old(out)@ + ne_bytes_of_u32(
                    json_bytes_of(*message).len() as u32,
                ) + json_bytes_of(*message)
                &&& final(out)@.subrange(0, old(out)@.len() as int) == old(out)@
                &&& is_frame(final(out)@.skip(old(out)@.len() as int))
                &&& final(out)@.skip(old(out)@.len() as int).skip(4) == json_bytes_of(*message)
                &&& json_accepts(json_bytes_of(*message)) ==> json_value_of(
                    json_bytes_of(*message),
                ) == *message
            },
            Err(e) => {
                &&& final(out)@ == old(out)@
                &&& e matches MessagingError::Size
                &&& json_bytes_of(*message).len() > u32::MAX
            },
        },
{
    let payload = match json_to_vec(message) {
        Ok(b) => b,
        Err(e) => {
            return Err(MessagingError::Json(e));
        },
    };
    let mut f = match encode_frame(&payload) {
        Ok(f) => f,
        Err(e) => {
            return Err(e);
        },
    };
    let ghost frame_view: Seq<u8> = f@;
    out.append(&mut f);
    proof {
        assert(final(out)@.subrange(0, old(out)@.len() as int) =~= old(out)@);
        assert(final(out)@.skip(old(out)@.len() as int) =~= frame_view);
        assert(frame_view.skip(4) == json_bytes_of(*message));
    }
    Ok(())
}

/// Reads one message from `buf` at position `start`: decodes the frame
/// there and deserializes its payload as one JSON value.
///
/// Returns the message — exactly the value that serde_json parses the
/// frame's payload to — and the position just past the frame, so that the
/// next message can be read from that position; nothing past the frame's
/// end is consumed. Succeeds exactly when `buf` holds a complete frame at
/// `start` whose payload serde_json's parser accepts; each error variant
/// comes exactly on the inputs its contract says, and on no others.
pub fn read_message(buf: &Vec<u8>, start: usize) -> (r: Result<
    (serde_json::Value, usize),
    MessagingError,
>)
    ensures
        match r {
            Ok((m, next)) => {
                &&& frame_complete(buf@, start as int)
                &&& json_accepts(frame_payload(buf@, start as int))
                &&& m == json_value_of(frame_payload(buf@, start as int))
                &&& next == frame_end(buf@, start as int)
            },
            Err(e) => match e {
                MessagingError::Io => !header_available(buf@, start as int),
                MessagingError::Size => header_available(buf@, start as int)
                    && frame_declared_len(buf@, start as int) > usize::MAX,
                MessagingError::Truncation => header_available(buf@, start as int)
                    && frame_declared_len(buf@, start as int) <= usize::MAX
                    && !frame_complete(buf@, start as int),
                MessagingError::Json(_) => frame_complete(buf@, start as int)
                    && !json_accepts(frame_payload(buf@, start as int)),
            },
        },
{
    let (payload, next) = match decode_frame(buf, start) {
        Ok(x) => x,
        Err(e) => {
            return Err(e);
        },
    };
    match json_from_slice(&payload) {
        Ok(m) => Ok((m, next)),
        Err(e) => Err(MessagingError::Json(e)),
    }
}

} // verus!
