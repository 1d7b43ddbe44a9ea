//! WebExtension native-messaging framing: a verified codec for the
//! length-prefixed message envelope that a browser extension uses to talk to
//! a locally installed executable over its standard streams.
//!
//! A frame on the wire is a fixed-width unsigned 32-bit length field, in the
//! byte order native to the host platform, followed by exactly that many
//! bytes of serialized payload. The framing itself is verified here; the
//! payload serialization is delegated to serde_json, and reading or writing
//! the process's standard streams is left to the embedding program.

pub mod codec;
pub mod endian;
pub mod errors;
pub mod frame;

pub use codec::read_message;
pub use codec::write_message;
pub use errors::MessagingError;
pub use frame::decode_frame;
pub use frame::encode_frame;
pub use frame::payload_length;
