use qsync::message::message_framing::{compressed_on_wire, message_serialize_and_frame, open_message_body, unframe_message, FrameError};
use qsync::message::{HeaderError, MessageHeader, MessageType, HEADER_LEN};

#[test]
fn header_len_is_twelve() {
    assert_eq!(HEADER_LEN, 12);
}

#[test]
fn header_serializes_little_endian() {
    let h = MessageHeader::new(MessageType::BlockData, 0x0102);
    let bytes = h.serialize().unwrap();
    assert_eq!(bytes, vec![0x02, 0x01, 0, 0, 0, 0, 0, 0, 3, 0, 0, 0]);
}

#[test]
fn header_serializes_large_length() {
    let h = MessageHeader::new(MessageType::Error, 0x1122334455667788);
    let bytes = h.serialize().unwrap();
    assert_eq!(bytes, vec![0x88, 0x77, 0x66, 0x55, 0x44, 0x33, 0x22, 0x11, 4, 0, 0, 0]);
}

#[test]
fn header_roundtrip_every_type() {
    let types = [
        MessageType::SyncRequest,
        MessageType::ChecksumsResponse,
        MessageType::BlockRequest,
        MessageType::BlockData,
        MessageType::Error,
    ];
    for (i, t) in types.iter().enumerate() {
        let h = MessageHeader::new(*t, 1000 + i as u64);
        let bytes = h.serialize().unwrap();
        assert_eq!(bytes.len(), HEADER_LEN);
        let back = MessageHeader::deserialize(&bytes).unwrap();
        assert_eq!(back, h);
        assert_eq!(t.index(), i as u32);
        assert_eq!(MessageType::from_index(i as u32), Some(*t));
    }
    assert_eq!(MessageType::from_index(5), None);
}

#[test]
fn header_deserialize_reads_fields() {
    let bytes = [5u8, 0, 0, 0, 0, 0, 0, 0, 1, 0, 0, 0];
    let h = MessageHeader::deserialize(&bytes).unwrap();
    assert_eq!(h.msg_len, 5);
    assert_eq!(h.msg_type, MessageType::ChecksumsResponse);
}

#[test]
fn header_deserialize_ignores_trailing_bytes() {
    let bytes = [9u8, 0, 0, 0, 0, 0, 0, 0, 2, 0, 0, 0, 0xff, 0xff];
    let h = MessageHeader::deserialize(&bytes).unwrap();
    assert_eq!(h, MessageHeader::new(MessageType::BlockRequest, 9));
}

#[test]
fn header_deserialize_too_short() {
    let bytes = [1u8, 0, 0, 0, 0, 0, 0, 0, 0, 0, 0];
    assert_eq!(MessageHeader::deserialize(&bytes), Err(HeaderError::TooShort));
    assert_eq!(MessageHeader::deserialize(&[]), Err(HeaderError::TooShort));
}

#[test]
fn header_deserialize_unknown_type() {
    let bytes = [1u8, 0, 0, 0, 0, 0, 0, 0, 7, 0, 0, 0];
    assert_eq!(MessageHeader::deserialize(&bytes), Err(HeaderError::UnknownMessageType(7)));
    let bytes = [1u8, 0, 0, 0, 0, 0, 0, 0, 0, 1, 0, 0];
    assert_eq!(MessageHeader::deserialize(&bytes), Err(HeaderError::UnknownMessageType(256)));
}

#[test]
fn display_names() {
    assert_eq!(MessageType::SyncRequest.display_name(), "Sync Request");
    assert_eq!(MessageType::ChecksumsResponse.display_name(), "Checksums Response");
    assert_eq!(MessageType::BlockRequest.display_name(), "Block Request");
    assert_eq!(MessageType::BlockData.display_name(), "Block Data");
    assert_eq!(MessageType::Error.display_name(), "Error");
}

#[test]
fn frame_without_compression() {
    let frame = message_serialize_and_frame(MessageType::SyncRequest, b"abc", false).unwrap();
    assert_eq!(frame, vec![3, 0, 0, 0, 0, 0, 0, 0, 0, 0, 0, 0, b'a', b'b', b'c']);
}

#[test]
fn frame_empty_message() {
    let frame = message_serialize_and_frame(MessageType::Error, b"", false).unwrap();
    assert_eq!(frame, vec![0, 0, 0, 0, 0, 0, 0, 0, 4, 0, 0, 0]);
    assert_eq!(unframe_message(&frame), Ok((MessageType::Error, vec![])));
}

#[test]
fn frame_with_compression_roundtrips() {
    let payload: Vec<u8> = (0..4000u32).map(|i| (i % 7) as u8).collect();
    let frame = message_serialize_and_frame(MessageType::BlockData, &payload, true).unwrap();
    let header = MessageHeader::deserialize(&frame).unwrap();
    assert_eq!(header.msg_type, MessageType::BlockData);
    assert_eq!(header.msg_len as usize, frame.len() - HEADER_LEN);
    // the body is compressed: repetitive data shrinks
    assert!(frame.len() - HEADER_LEN < payload.len());
    assert_eq!(unframe_message(&frame), Ok((MessageType::BlockData, payload.clone())));
    let body = &frame[HEADER_LEN..];
    assert_eq!(open_message_body(&header, body), Ok(payload));
}

#[test]
fn frame_uncompressed_roundtrips() {
    let payload = b"hello request".to_vec();
    let frame = message_serialize_and_frame(MessageType::BlockRequest, &payload, false).unwrap();
    assert_eq!(unframe_message(&frame), Ok((MessageType::BlockRequest, payload)));
}

#[test]
fn compressed_types() {
    assert!(compressed_on_wire(MessageType::ChecksumsResponse));
    assert!(compressed_on_wire(MessageType::BlockData));
    assert!(!compressed_on_wire(MessageType::SyncRequest));
    assert!(!compressed_on_wire(MessageType::BlockRequest));
    assert!(!compressed_on_wire(MessageType::Error));
}

#[test]
fn open_body_length_checks() {
    let header = MessageHeader::new(MessageType::SyncRequest, 4);
    assert_eq!(open_message_body(&header, b"abcde"), Err(FrameError::BodyTooLong));
    assert_eq!(open_message_body(&header, b"abcd"), Ok(b"abcd".to_vec()));
    // a stream that ends early still yields what arrived
    assert_eq!(open_message_body(&header, b"abc"), Ok(b"abc".to_vec()));
    let header = MessageHeader::new(MessageType::Error, 100);
    assert_eq!(open_message_body(&header, b"short error"), Ok(b"short error".to_vec()));
}

#[test]
fn open_body_decompression_error() {
    let header = MessageHeader::new(MessageType::ChecksumsResponse, 3);
    assert_eq!(open_message_body(&header, b"xyz"), Err(FrameError::Decompression));
}

#[test]
fn unframe_header_error() {
    assert_eq!(unframe_message(&[1, 2, 3]), Err(FrameError::Header(HeaderError::TooShort)));
}

#[test]
fn unframe_body_too_long() {
    let mut frame = message_serialize_and_frame(MessageType::SyncRequest, b"abc", false).unwrap();
    frame.push(b'd');
    assert_eq!(unframe_message(&frame), Err(FrameError::BodyTooLong));
    frame.truncate(HEADER_LEN + 2);
    assert_eq!(unframe_message(&frame), Ok((MessageType::SyncRequest, b"ab".to_vec())));
}
