use gltr::buffers::{
    strip_prefix, BufferViewTarget, DecodeFailure, GltfBase64Buffer, GltfBinaryBuffer,
    GltfBinaryBuffers, GltfBufferView, GltfBuffers, ARRAY_BUFFER, BASE64_MARKER,
    ELEMENT_ARRAY_BUFFER, ERR_INVALID_BYTE, ERR_INVALID_LAST_SYMBOL, ERR_INVALID_LENGTH,
    ERR_INVALID_PADDING, ERR_LENGTH_MISMATCH, ERR_MISSING_BUFFER, ERR_NOT_BASE64,
    ERR_OUT_OF_RANGE,
};

fn encoded(payload: &str, byte_length: usize) -> GltfBase64Buffer {
    GltfBase64Buffer {
        byte_length,
        uri: format!("data:application/octet-stream;base64,{}", payload),
        original_index: None,
    }
}

fn binary(bytes: Vec<u8>) -> GltfBinaryBuffer {
    GltfBinaryBuffer { byte_length: bytes.len(), bytes, original_index: None }
}

fn view(buffer: usize, byte_offset: usize, byte_length: usize) -> GltfBufferView {
    GltfBufferView { buffer, byte_length, byte_offset, target: None, original_index: None }
}

/// Sixteen bytes, 0 to 15, and the views of a small document into them.
fn sample_buffers() -> GltfBuffers {
    GltfBuffers(vec![encoded("AAECAwQFBgcICQoLDA0ODw==", 16)])
}

fn sample_views() -> Vec<GltfBufferView> {
    vec![view(0, 0, 4), view(0, 4, 8), view(0, 12, 4)]
}

#[test]
fn test_decode() {
    let buffer_view_b64 = GltfBuffers(vec![encoded("QUJD", 3)]);
    assert!(!buffer_view_b64.0.is_empty());
    let first_buffer = encoded("QUJD", 3);
    let binary_buffer = first_buffer.to_binary().expect("should be valid encoded buffer");
    let l = binary_buffer.byte_length;
    let l2 = binary_buffer.bytes.len();
    assert_eq!(l, l2);
    assert_eq!(binary_buffer.bytes, vec![0x41u8, 0x42, 0x43]);
}

#[test]
fn test_views() {
    let view_list = sample_views();
    let binary_buffers = sample_buffers().to_binary().expect("should be valid decoded buffers");
    for x in &view_list {
        let v = binary_buffers.get_view(x);
        assert!(v.is_ok());
    }
    let mut last = view_list.last().unwrap().clone();
    last.byte_length += 1;
    let invalid_range_buffer = binary_buffers.get_view(&last);
    assert!(invalid_range_buffer.is_err());
}

#[test]
fn test_views_2() {
    let binary_buffers = sample_buffers().to_binary().expect("should be valid decoded buffers");
    let buff_0_len = binary_buffers.0.first().unwrap().byte_length;
    for size in 0..buff_0_len {
        let offset = buff_0_len - size;
        let mut view = GltfBufferView {
            buffer: 0,
            byte_length: size,
            byte_offset: offset,
            target: Some(BufferViewTarget::element_array_buffer()),
            original_index: None,
        };
        let v = binary_buffers.get_view(&view);
        assert!(v.is_ok());
        view.byte_offset += 1;
        let v2 = binary_buffers.get_view(&view);
        assert!(v2.is_err())
    }
}

#[test]
fn decoding_yields_the_encoded_bytes() {
    let buffer = encoded("QUJD", 3);
    assert_eq!(buffer.bytes(), Ok(vec![0x41u8, 0x42, 0x43]));
    let table = sample_buffers().to_binary().unwrap();
    assert_eq!(table.0[0].bytes, (0u8..16).collect::<Vec<u8>>());
    assert_eq!(table.0[0].byte_length, 16);
}

#[test]
fn declared_length_must_match() {
    let buffer = encoded("QUJD", 4);
    assert_eq!(buffer.bytes(), Ok(vec![0x41u8, 0x42, 0x43]));
    assert_eq!(buffer.to_binary().err(), Some(ERR_LENGTH_MISMATCH));
}

#[test]
fn uri_without_marker_is_refused() {
    let buffer =
        GltfBase64Buffer { byte_length: 3, uri: "QUJD".to_string(), original_index: None };
    assert_eq!(buffer.bytes(), Err(ERR_NOT_BASE64));
    assert_eq!(buffer.to_binary().err(), Some(ERR_NOT_BASE64));
    let short = GltfBase64Buffer { byte_length: 0, uri: "data:".to_string(), original_index: None };
    assert_eq!(short.bytes(), Err(ERR_NOT_BASE64));
}

#[test]
fn marker_is_removed_at_the_front_only() {
    let uri = format!("{}{}QUJD", BASE64_MARKER, BASE64_MARKER);
    let buffer = GltfBase64Buffer { byte_length: 3, uri, original_index: None };
    assert_eq!(buffer.bytes(), Err(ERR_INVALID_BYTE));
}

#[test]
fn empty_payload_decodes_to_nothing() {
    let buffer = encoded("", 0);
    let binary = buffer.to_binary().unwrap();
    assert!(binary.bytes.is_empty());
    assert_eq!(binary.byte_length, 0);
}

#[test]
fn each_decoding_failure_has_its_message() {
    assert_eq!(encoded("QU*D", 3).bytes(), Err(ERR_INVALID_BYTE));
    assert_eq!(encoded("QUJDQ", 3).bytes(), Err(ERR_INVALID_LENGTH));
    assert_eq!(encoded("QUJ=", 2).bytes(), Err(ERR_INVALID_LAST_SYMBOL));
    assert_eq!(encoded("QUI", 2).bytes(), Err(ERR_INVALID_PADDING));
    assert_eq!(encoded("QU*D", 3).to_binary().err(), Some(ERR_INVALID_BYTE));
}

#[test]
fn failures_are_described() {
    assert_eq!(DecodeFailure::InvalidByte(2, b'*').describe(), ERR_INVALID_BYTE);
    assert_eq!(DecodeFailure::InvalidLength(5).describe(), ERR_INVALID_LENGTH);
    assert_eq!(DecodeFailure::InvalidLastSymbol(2, b'J').describe(), ERR_INVALID_LAST_SYMBOL);
    assert_eq!(DecodeFailure::InvalidPadding.describe(), ERR_INVALID_PADDING);
}

#[test]
fn outcome_of_decoding_becomes_a_buffer() {
    let buffer = GltfBinaryBuffer::from_decoded(3, Some(5), Ok(vec![1, 2, 3])).unwrap();
    assert_eq!(buffer.bytes, vec![1u8, 2, 3]);
    assert_eq!(buffer.byte_length, 3);
    assert_eq!(buffer.original_index, Some(5));
    assert_eq!(
        GltfBinaryBuffer::from_decoded(4, None, Ok(vec![1, 2, 3])).err(),
        Some(ERR_LENGTH_MISMATCH)
    );
    assert_eq!(
        GltfBinaryBuffer::from_decoded(3, None, Err(DecodeFailure::InvalidPadding)).err(),
        Some(ERR_INVALID_PADDING)
    );
}

#[test]
fn first_buffer_that_fails_ends_the_decoding() {
    let buffers = GltfBuffers(vec![encoded("QUJD", 3), encoded("QUI", 2), encoded("QU*D", 3)]);
    assert_eq!(buffers.to_binary().err(), Some(ERR_INVALID_PADDING));
    let buffers = GltfBuffers(vec![encoded("QUJD", 3), encoded("QUJDREVG", 6)]);
    let table = GltfBinaryBuffers::try_from(buffers).unwrap();
    assert_eq!(table.0.len(), 2);
    assert_eq!(table.0[1].bytes, b"ABCDEF".to_vec());
}

#[test]
fn conversions_decode() {
    let buffer = GltfBinaryBuffer::try_from(encoded("QUJD", 3)).unwrap();
    assert_eq!(buffer.bytes, b"ABC".to_vec());
    let buffer = GltfBinaryBuffer::from_base64(encoded("QUJD", 3)).unwrap();
    assert_eq!(buffer.bytes, b"ABC".to_vec());
    let buffer = GltfBinaryBuffer::decode(&encoded("QUJD", 3)).unwrap();
    assert_eq!(buffer.bytes, b"ABC".to_vec());
    let tagged = GltfBase64Buffer {
        byte_length: 3,
        uri: format!("{}QUJD", BASE64_MARKER),
        original_index: Some(2),
    };
    assert_eq!(tagged.to_binary().unwrap().original_index, Some(2));
}

#[test]
fn tables_start_empty() {
    assert!(GltfBuffers::new().0.is_empty());
    assert!(GltfBuffers::empty().0.is_empty());
    assert!(GltfBuffers::default().0.is_empty());
    assert_eq!(GltfBuffers::empty().to_binary().unwrap().0.len(), 0);
}

#[test]
fn view_within_and_past_the_buffer() {
    let bytes: Vec<u8> = (0u8..100).collect();
    let table = GltfBinaryBuffers(vec![binary(bytes.clone())]);
    let mut v0 = view(0, 40, 20);
    assert_eq!(table.get_view(&v0), Ok(bytes[40..60].to_vec()));
    v0.byte_length = 60;
    assert_eq!(table.get_view(&v0), Ok(bytes[40..100].to_vec()));
    v0.byte_length = 61;
    assert_eq!(table.get_view(&v0), Err(ERR_OUT_OF_RANGE));
}

#[test]
fn view_at_the_edges() {
    let table = GltfBinaryBuffers(vec![binary(vec![7, 8, 9])]);
    assert_eq!(table.get_view(&view(0, 0, 3)), Ok(vec![7u8, 8, 9]));
    assert_eq!(table.get_view(&view(0, 3, 0)), Ok(vec![]));
    assert_eq!(table.get_view(&view(0, 4, 0)), Err(ERR_OUT_OF_RANGE));
    assert_eq!(table.get_view(&view(0, 2, 2)), Err(ERR_OUT_OF_RANGE));
}

#[test]
fn end_of_view_does_not_wrap() {
    let table = GltfBinaryBuffers(vec![binary(vec![7, 8, 9])]);
    assert_eq!(table.get_view(&view(0, usize::MAX, 2)), Err(ERR_OUT_OF_RANGE));
    assert_eq!(table.get_view(&view(0, 2, usize::MAX)), Err(ERR_OUT_OF_RANGE));
}

#[test]
fn view_into_a_missing_buffer() {
    let table = GltfBinaryBuffers(vec![binary(vec![7, 8, 9])]);
    assert_eq!(table.get_view(&view(1, 0, 1)), Err(ERR_MISSING_BUFFER));
    let none = GltfBinaryBuffers(vec![]);
    assert_eq!(none.get_view(&view(0, 0, 0)), Err(ERR_MISSING_BUFFER));
}

#[test]
fn view_reads_the_payload_not_the_declared_length() {
    let table = GltfBinaryBuffers(vec![GltfBinaryBuffer {
        byte_length: 10,
        bytes: vec![1, 2],
        original_index: None,
    }]);
    assert_eq!(table.get_view(&view(0, 0, 3)), Err(ERR_OUT_OF_RANGE));
    assert_eq!(table.get_view(&view(0, 1, 1)), Ok(vec![2u8]));
}

#[test]
fn returned_bytes_are_a_copy() {
    let table = GltfBinaryBuffers(vec![binary(vec![1, 2, 3, 4])]);
    let mut bytes = table.get_view(&view(0, 1, 2)).unwrap();
    bytes[0] = 99;
    assert_eq!(table.0[0].bytes, vec![1u8, 2, 3, 4]);
}

#[test]
fn targets_know_two_codes() {
    assert!(BufferViewTarget::array_buffer().is_valid());
    assert!(BufferViewTarget::element_array_buffer().is_valid());
    assert!(BufferViewTarget::new(34962).is_valid());
    assert!(BufferViewTarget::new(34963).is_valid());
    assert!(!BufferViewTarget::new(34961).is_valid());
    assert!(!BufferViewTarget::new(34964).is_valid());
    assert!(!BufferViewTarget::new(0).is_valid());
    assert_eq!(BufferViewTarget::array_buffer().code(), ARRAY_BUFFER);
    assert_eq!(BufferViewTarget::element_array_buffer().code(), ELEMENT_ARRAY_BUFFER);
    assert_eq!(BufferViewTarget::new(7).code(), 7);
    assert_eq!(BufferViewTarget::new(34962), BufferViewTarget::array_buffer());
}

#[test]
fn prefix_is_stripped() {
    assert_eq!(strip_prefix(b"abcdef", b"abc"), Some(&b"def"[..]));
    assert_eq!(strip_prefix(b"abc", b"abc"), Some(&b""[..]));
    assert_eq!(strip_prefix(b"abcdef", b""), Some(&b"abcdef"[..]));
    assert_eq!(strip_prefix(b"abxdef", b"abc"), None);
    assert_eq!(strip_prefix(b"ab", b"abc"), None);
}

#[test]
fn copies_of_views_and_buffers() {
    let v = GltfBufferView {
        buffer: 3,
        byte_length: 4,
        byte_offset: 5,
        target: Some(BufferViewTarget::array_buffer()),
        original_index: Some(6),
    };
    let w = v.duplicate();
    assert_eq!((w.buffer, w.byte_length, w.byte_offset), (3, 4, 5));
    assert_eq!(w.target, Some(BufferViewTarget::array_buffer()));
    assert_eq!(w.original_index, Some(6));
    let b = binary(vec![1, 2, 3]);
    let c = b.duplicate(Some(9));
    assert_eq!(c.bytes, vec![1u8, 2, 3]);
    assert_eq!(c.byte_length, 3);
    assert_eq!(c.original_index, Some(9));
    let d = b.clone();
    assert_eq!(d.bytes, vec![1u8, 2, 3]);
    assert_eq!(d.original_index, None);
}
