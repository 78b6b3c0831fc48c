use rcvweb::protocol::frame_part;
use rcvweb::protocol::response_header;
use rcvweb::EncodedFrame;

#[test]
fn response_header_is_exact() {
    assert_eq!(
        response_header(),
        "HTTP/1.1 200 OK\r\nContent-Type: multipart/x-mixed-replace; boundary=frame\r\n\r\n"
    );
}

#[test]
fn frame_part_is_byte_exact() {
    let f = EncodedFrame { seq: 1, bytes: vec![0xFF, 0xD8, 0xD9] };
    let mut expected: Vec<u8> = Vec::new();
    expected.extend_from_slice(b"--frame\r\nContent-Type: image/jpeg\r\nContent-Length: 3\r\n\r\n");
    expected.extend_from_slice(&[0xFF, 0xD8, 0xD9]);
    expected.extend_from_slice(b"\r\n");
    assert_eq!(frame_part(&f), expected);
}

#[test]
fn frame_part_of_empty_payload_declares_zero() {
    let f = EncodedFrame { seq: 9, bytes: Vec::new() };
    let part = frame_part(&f);
    assert_eq!(
        part,
        b"--frame\r\nContent-Type: image/jpeg\r\nContent-Length: 0\r\n\r\n\r\n".to_vec()
    );
}

#[test]
fn frame_part_length_needs_several_digits() {
    let f = EncodedFrame { seq: 2, bytes: vec![7u8; 12] };
    let part = frame_part(&f);
    let text = String::from_utf8_lossy(&part);
    assert!(text.starts_with("--frame\r\nContent-Type: image/jpeg\r\nContent-Length: 12\r\n\r\n"));
}

#[test]
fn declared_length_always_matches_payload() {
    for len in [0usize, 1, 9, 10, 99, 100, 123, 4096] {
        let f = EncodedFrame { seq: 1, bytes: vec![0xAB; len] };
        let part = frame_part(&f);
        let text = String::from_utf8_lossy(&part);
        let marker = "Content-Length: ";
        let at = text.find(marker).expect("the header declares a length") + marker.len();
        let digits: String = text[at..].chars().take_while(|c| c.is_ascii_digit()).collect();
        assert_eq!(digits.parse::<usize>().unwrap(), len);
        // Header, payload, and trailing delimiter account for every byte.
        let header_end = part
            .windows(4)
            .position(|w| w == b"\r\n\r\n")
            .expect("the header ends with a blank line") + 4;
        assert_eq!(part.len(), header_end + len + 2);
        assert_eq!(&part[header_end..header_end + len], f.bytes.as_slice());
        assert_eq!(&part[header_end + len..], b"\r\n");
    }
}
