use voice_relay::multipart::encode_multipart;
use voice_relay::multipart::extract_multipart_payload;
use voice_relay::multipart::multipart_content_type;

#[test]
fn round_trip_preserves_every_byte() {
    let boundary = b"f1a9c0de".to_vec();
    let payload = vec![0u8, 255, 13, 10, 45, 45, 7];
    let body = encode_multipart(&boundary, &payload);
    let back = extract_multipart_payload(&body, &boundary).unwrap();
    assert_eq!(back, payload);
}

#[test]
fn echoed_length_matches_original_length() {
    let boundary = b"edge".to_vec();
    let payload: Vec<u8> = (0u8..=255).collect();
    let body = encode_multipart(&boundary, &payload);
    let received = extract_multipart_payload(&body, &boundary).unwrap();
    assert_eq!(received.len(), payload.len());
}

#[test]
fn empty_payload_round_trips() {
    let boundary = b"b".to_vec();
    let body = encode_multipart(&boundary, &Vec::new());
    let back = extract_multipart_payload(&body, &boundary).unwrap();
    assert!(back.is_empty());
}

#[test]
fn body_layout_is_exact() {
    let body = encode_multipart(&b"B".to_vec(), &b"hi".to_vec());
    let expected: Vec<u8> = [
        &b"--B\r\n"[..],
        &b"Content-Disposition: form-data; name=\"audio_file\"; filename=\"audio_file\"\r\n"[..],
        &b"Content-Type: audio/ogg\r\n\r\n"[..],
        &b"hi"[..],
        &b"\r\n--B--\r\n"[..],
    ]
    .concat();
    assert_eq!(body, expected);
}

#[test]
fn concurrent_uploads_keep_their_own_bytes() {
    let boundary_one = b"left".to_vec();
    let boundary_two = b"right".to_vec();
    let payload_one = vec![1u8, 1, 1, 1];
    let payload_two = vec![2u8, 2];
    let body_one = encode_multipart(&boundary_one, &payload_one);
    let body_two = encode_multipart(&boundary_two, &payload_two);
    let back_one = extract_multipart_payload(&body_one, &boundary_one).unwrap();
    let back_two = extract_multipart_payload(&body_two, &boundary_two).unwrap();
    assert_eq!(back_one, payload_one);
    assert_eq!(back_two, payload_two);
    assert_ne!(back_one, back_two);
}

#[test]
fn corrupted_framing_is_rejected() {
    let boundary = b"bnd".to_vec();
    let payload = vec![42u8; 16];
    let mut body = encode_multipart(&boundary, &payload);
    body[0] = b'X';
    assert!(extract_multipart_payload(&body, &boundary).is_none());

    let mut tail_broken = encode_multipart(&boundary, &payload);
    let last = tail_broken.len() - 1;
    tail_broken[last] = b'X';
    assert!(extract_multipart_payload(&tail_broken, &boundary).is_none());

    let short = b"--bnd".to_vec();
    assert!(extract_multipart_payload(&short, &boundary).is_none());
}

#[test]
fn wrong_boundary_is_rejected() {
    let body = encode_multipart(&b"one".to_vec(), &vec![5u8; 4]);
    assert!(extract_multipart_payload(&body, &b"two".to_vec()).is_none());
}

#[test]
fn content_type_names_the_boundary() {
    assert_eq!(
        multipart_content_type("f1a9c0de"),
        "multipart/form-data; boundary=f1a9c0de"
    );
}
