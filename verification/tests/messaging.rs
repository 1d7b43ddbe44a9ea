use serde_json::Value;
use web_ext_native_messaging::decode_frame;
use web_ext_native_messaging::encode_frame;
use web_ext_native_messaging::payload_length;
use web_ext_native_messaging::read_message;
use web_ext_native_messaging::write_message;
use web_ext_native_messaging::MessagingError;

fn text_message(text: &str) -> Value {
    let mut fields = serde_json::Map::new();
    fields.insert("text".to_string(), Value::String(text.to_string()));
    Value::Object(fields)
}

#[test]
fn test_messaging() -> Result<(), MessagingError> {
    let test_message = text_message("This is a test");

    // A buffer that acts as both the writer and the reader
    // (i.e. stdout and stdin).
    let mut buffer: Vec<u8> = vec![];

    write_message(&test_message, &mut buffer)?;
    let (message, _consumed) = read_message(&buffer, 0)?;

    assert_eq!(message, test_message);
    Ok(())
}

#[test]
fn exact_wire_bytes() {
    let message = text_message("This is a test");
    let mut buffer: Vec<u8> = vec![];
    write_message(&message, &mut buffer).unwrap();

    let payload = br#"{"text":"This is a test"}"#;
    let mut expected = (payload.len() as u32).to_ne_bytes().to_vec();
    expected.extend_from_slice(payload);
    assert_eq!(buffer, expected);

    let (back, consumed) = read_message(&buffer, 0).unwrap();
    assert_eq!(back, message);
    assert_eq!(consumed, buffer.len());
}

#[test]
fn frame_round_trip() {
    let payload: Vec<u8> = vec![1, 2, 3, 4, 5];
    let frame = encode_frame(&payload).unwrap();
    assert_eq!(frame.len(), 9);
    // Length exactness: the first four bytes, read in native order, are the
    // payload length.
    assert_eq!(u32::from_ne_bytes(frame[0..4].try_into().unwrap()), 5);
    assert_eq!(&frame[4..], &payload[..]);

    let (decoded, next) = decode_frame(&frame, 0).unwrap();
    assert_eq!(decoded, payload);
    assert_eq!(next, frame.len());
}

#[test]
fn empty_payload_frame() {
    let payload: Vec<u8> = vec![];
    let frame = encode_frame(&payload).unwrap();
    assert_eq!(frame, 0u32.to_ne_bytes().to_vec());

    let (decoded, next) = decode_frame(&frame, 0).unwrap();
    assert_eq!(decoded, payload);
    assert_eq!(next, 4);
}

#[test]
fn truncated_stream() {
    // Declares five payload bytes, then the source closes immediately.
    let buffer: Vec<u8> = vec![0x05, 0x00, 0x00, 0x00];
    let err = read_message(&buffer, 0).unwrap_err();
    assert!(matches!(err, MessagingError::Truncation));
}

#[test]
fn truncated_payload() {
    let mut buffer = 10u32.to_ne_bytes().to_vec();
    buffer.extend_from_slice(&[1, 2, 3]);
    let err = decode_frame(&buffer, 0).unwrap_err();
    assert!(matches!(err, MessagingError::Truncation));
}

#[test]
fn short_header() {
    let err = decode_frame(&vec![0x01, 0x02], 0).unwrap_err();
    assert!(matches!(err, MessagingError::Io));

    let err = read_message(&Vec::new(), 0).unwrap_err();
    assert!(matches!(err, MessagingError::Io));

    // A header that would start past the end of the source is just as
    // incomplete.
    let err = decode_frame(&vec![1, 2, 3, 4, 5, 6], 5).unwrap_err();
    assert!(matches!(err, MessagingError::Io));
}

#[test]
fn malformed_payload() {
    let payload: Vec<u8> = b"not json".to_vec();
    let frame = encode_frame(&payload).unwrap();
    let err = read_message(&frame, 0).unwrap_err();
    assert!(matches!(err, MessagingError::Json(_)));
}

#[test]
fn two_frames_in_order() {
    let first = text_message("first");
    let second = text_message("second");
    let mut buffer: Vec<u8> = vec![];
    write_message(&first, &mut buffer).unwrap();
    let boundary = buffer.len();
    write_message(&second, &mut buffer).unwrap();

    let (message, next) = read_message(&buffer, 0).unwrap();
    assert_eq!(message, first);
    assert_eq!(next, boundary);

    let (message, end) = read_message(&buffer, next).unwrap();
    assert_eq!(message, second);
    assert_eq!(end, buffer.len());
}

#[test]
fn no_over_read() {
    let message = text_message("framed");
    let mut buffer: Vec<u8> = vec![];
    write_message(&message, &mut buffer).unwrap();
    let frame_len = buffer.len();

    // Bytes belonging to a later frame must stand untouched.
    buffer.extend_from_slice(&[0xDE, 0xAD, 0xBE, 0xEF]);
    let (back, consumed) = read_message(&buffer, 0).unwrap();
    assert_eq!(back, message);
    assert_eq!(consumed, frame_len);
    assert_eq!(&buffer[consumed..], &[0xDE, 0xAD, 0xBE, 0xEF]);
}

#[test]
fn length_field_alone() {
    let prefix = 7u32.to_ne_bytes().to_vec();
    assert_eq!(payload_length(&prefix).unwrap(), 7);

    let err = payload_length(&vec![0x01]).unwrap_err();
    assert!(matches!(err, MessagingError::Io));
}
