use fileserve::response::build_response;

/// The blank line separating the head from the payload.
fn head_len(response: &[u8]) -> usize {
    let mut i = 0;
    while i + 1 < response.len() {
        if response[i] == b'\n' && response[i + 1] == b'\n' {
            return i + 2;
        }
        i += 1;
    }
    panic!("no blank line in response");
}

#[test]
fn test_hello_txt_scenario() {
    let name = b"hello.txt".to_vec();
    let payload = vec![0x68u8, 0x65, 0x6c, 0x6c, 0x6f];
    let response = build_response(&name, &payload);
    let expected = format!(
        "HTTP/1.1 200 OK\n\
         Content-Type: application/octet-stream; charset=utf-8\n\
         Content-Disposition: attachment; filename=\"hello.txt\"\n\
         Content-Length: 5\n\n\
         hello"
    );
    assert_eq!(response, expected.as_bytes().to_vec());
}

#[test]
fn test_empty_payload() {
    let name = b"empty.bin".to_vec();
    let payload: Vec<u8> = Vec::new();
    let response = build_response(&name, &payload);
    let text = String::from_utf8(response.clone()).unwrap();
    assert!(text.contains("Content-Length: 0\n"));
    assert!(text.ends_with("\n\n"));
    assert_eq!(head_len(&response), response.len());
}

#[test]
fn test_binary_payload_served_byte_for_byte() {
    let name = b"blob".to_vec();
    let payload = vec![0u8, 255, 10, 10, 13, 0, 47, 128];
    let response = build_response(&name, &payload);
    let start = head_len(&response);
    assert_eq!(&response[start..], &payload[..]);
}

#[test]
fn test_two_sequential_clients_get_identical_bytes() {
    let name = b"data.tar".to_vec();
    let payload = vec![1u8, 2, 3, 4, 5, 6, 7];
    let first = build_response(&name, &payload);
    let second = build_response(&name, &payload);
    assert_eq!(first, second);
    let start = head_len(&first);
    assert_eq!(&first[start..], &payload[..]);
    assert_eq!(&second[start..], &payload[..]);
}

#[test]
fn test_content_length_matches_payload_length() {
    for len in [0usize, 1, 5, 123, 1000] {
        let name = b"f".to_vec();
        let payload = vec![42u8; len];
        let response = build_response(&name, &payload);
        let text = String::from_utf8_lossy(&response).into_owned();
        let marker = "Content-Length: ";
        let at = text.find(marker).unwrap() + marker.len();
        let digits: String = text[at..].chars().take_while(|c| c.is_ascii_digit()).collect();
        assert_eq!(digits, len.to_string());
        let start = head_len(&response);
        assert_eq!(response.len() - start, len);
    }
}

#[test]
fn test_filename_appears_quoted_in_disposition() {
    let name = b"report.pdf".to_vec();
    let payload = b"x".to_vec();
    let response = build_response(&name, &payload);
    let text = String::from_utf8(response).unwrap();
    assert!(text.contains("Content-Disposition: attachment; filename=\"report.pdf\"\n"));
}
