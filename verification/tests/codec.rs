use socks5::addr::{dest_text_of, DestAddr, Host};
use socks5::codec::{
    be16, decode_addr, encode_addr, greeting_reply, parse_greeting, parse_request, reply_bytes,
};
use socks5::error::SocksError;

fn parsed_dest(bytes: &[u8]) -> (String, usize) {
    match parse_request(bytes) {
        Ok((dest, used)) => (dest_text_of(&dest), used),
        Err(e) => panic!("request rejected: {}", e.describe()),
    }
}

#[test]
fn greeting_valid_any_nonempty_methods() {
    assert_eq!(parse_greeting(&[0x05, 0x01, 0x00]), Ok(3));
    assert_eq!(parse_greeting(&[0x05, 0x02, 0x00, 0x02]), Ok(4));
    assert_eq!(parse_greeting(&[0x05, 0x01, 0x7f]), Ok(3));
    assert_eq!(greeting_reply(), vec![0x05, 0x00]);
}

#[test]
fn greeting_empty_method_list() {
    assert_eq!(parse_greeting(&[0x05, 0x00]), Ok(2));
}

#[test]
fn greeting_trailing_bytes_not_consumed() {
    assert_eq!(parse_greeting(&[0x05, 0x01, 0x00, 0xaa, 0xbb]), Ok(3));
}

#[test]
fn greeting_bad_version() {
    assert_eq!(parse_greeting(&[0x04, 0x01, 0x00]), Err(SocksError::ProtocolViolation));
    assert_eq!(parse_greeting(&[0x00]), Err(SocksError::ProtocolViolation));
}

#[test]
fn greeting_truncated() {
    assert_eq!(parse_greeting(&[]), Err(SocksError::TransportError));
    assert_eq!(parse_greeting(&[0x05]), Err(SocksError::TransportError));
    assert_eq!(parse_greeting(&[0x05, 0x02, 0x00]), Err(SocksError::TransportError));
}

#[test]
fn request_ipv4_example() {
    let (dest, used) = parsed_dest(&[0x05, 0x01, 0x00, 0x01, 93, 184, 216, 34, 0, 80]);
    assert_eq!(dest, "93.184.216.34:80");
    assert_eq!(used, 10);
}

#[test]
fn request_domain_example() {
    let mut bytes = vec![0x05, 0x01, 0x00, 0x03, 11];
    bytes.extend_from_slice(b"example.com");
    bytes.extend_from_slice(&[0, 80]);
    let (dest, used) = parsed_dest(&bytes);
    assert_eq!(dest, "example.com:80");
    assert_eq!(used, bytes.len());
}

#[test]
fn request_ipv6_example() {
    let mut bytes = vec![0x05, 0x01, 0x00, 0x04];
    bytes.extend_from_slice(&[
        0x20, 0x01, 0x0d, 0xb8, 0, 0, 0, 0, 0, 0, 0, 0, 0, 0, 0x00, 0x01,
    ]);
    bytes.extend_from_slice(&[0x01, 0xbb]);
    let (dest, used) = parsed_dest(&bytes);
    assert_eq!(dest, "2001:db8::1:443");
    assert_eq!(used, 22);
}

#[test]
fn request_bad_version() {
    assert_eq!(
        parse_request(&[0x04, 0x01, 0x00, 0x01, 1, 2, 3, 4, 0, 80]),
        Err(SocksError::ProtocolViolation)
    );
}

#[test]
fn request_bad_command() {
    // BIND (0x02) and UDP-ASSOCIATE (0x03) are unsupported.
    assert_eq!(
        parse_request(&[0x05, 0x02, 0x00, 0x01, 1, 2, 3, 4, 0, 80]),
        Err(SocksError::ProtocolViolation)
    );
    assert_eq!(
        parse_request(&[0x05, 0x03, 0x00, 0x01, 1, 2, 3, 4, 0, 80]),
        Err(SocksError::ProtocolViolation)
    );
}

#[test]
fn request_bad_reserved_byte() {
    assert_eq!(
        parse_request(&[0x05, 0x01, 0x01, 0x01, 1, 2, 3, 4, 0, 80]),
        Err(SocksError::ProtocolViolation)
    );
}

#[test]
fn request_bad_address_tag() {
    assert_eq!(
        parse_request(&[0x05, 0x01, 0x00, 0x02, 1, 2, 3, 4, 0, 80]),
        Err(SocksError::ProtocolViolation)
    );
}

#[test]
fn request_truncated_is_transport_error() {
    assert_eq!(parse_request(&[0x05, 0x01]), Err(SocksError::TransportError));
    assert_eq!(
        parse_request(&[0x05, 0x01, 0x00, 0x01, 93, 184]),
        Err(SocksError::TransportError)
    );
    assert_eq!(
        parse_request(&[0x05, 0x01, 0x00, 0x03, 11, b'e']),
        Err(SocksError::TransportError)
    );
}

#[test]
fn decode_domain_with_invalid_utf8() {
    // 0xff is no valid UTF-8; lossy decoding substitutes U+FFFD, it
    // does not keep the raw byte as a character.
    let (dest, _) = match decode_addr(&[0x03, 2, 0xff, b'a', 0, 80]) {
        Ok(parsed) => (dest_text_of(&parsed.0), parsed.1),
        Err(e) => panic!("address rejected: {}", e.describe()),
    };
    assert_eq!(dest, "\u{fffd}a:80");
}

#[test]
fn decode_empty_domain() {
    let (dest, used) = match decode_addr(&[0x03, 0, 0x1f, 0x90]) {
        Ok(parsed) => (dest_text_of(&parsed.0), parsed.1),
        Err(e) => panic!("address rejected: {}", e.describe()),
    };
    assert_eq!(dest, ":8080");
    assert_eq!(used, 4);
}

#[test]
fn decode_longest_domain() {
    let mut bytes = vec![0x03, 255];
    bytes.extend_from_slice(&[b'x'; 255]);
    bytes.extend_from_slice(&[0, 80]);
    let (dest, used) = match decode_addr(&bytes) {
        Ok(parsed) => (dest_text_of(&parsed.0), parsed.1),
        Err(e) => panic!("address rejected: {}", e.describe()),
    };
    assert_eq!(dest, format!("{}:80", "x".repeat(255)));
    assert_eq!(used, 259);
}

#[test]
fn ipv6_text_special_forms() {
    let dest_of = |groups: [u16; 8], port: u16| {
        let bytes: Vec<u8> = groups.iter().flat_map(|g| g.to_be_bytes()).collect();
        let mut wire = vec![0x04];
        wire.extend_from_slice(&bytes);
        wire.extend_from_slice(&port.to_be_bytes());
        match decode_addr(&wire) {
            Ok(parsed) => dest_text_of(&parsed.0),
            Err(e) => panic!("address rejected: {}", e.describe()),
        }
    };
    // All zeros and loopback collapse fully.
    assert_eq!(dest_of([0, 0, 0, 0, 0, 0, 0, 0], 80), ":::80");
    assert_eq!(dest_of([0, 0, 0, 0, 0, 0, 0, 1], 80), "::1:80");
    // An IPv4-mapped address is written in mixed notation.
    assert_eq!(
        dest_of([0, 0, 0, 0, 0, 0xffff, 0x5db8, 0xd822], 443),
        "::ffff:93.184.216.34:443"
    );
    // The leftmost of two equally long zero runs collapses.
    assert_eq!(dest_of([0x2001, 0, 0, 1, 2, 0, 0, 1], 80), "2001::1:2:0:0:1:80");
    // A lone zero group is not compressed.
    assert_eq!(dest_of([1, 0, 2, 3, 4, 5, 6, 7], 80), "1:0:2:3:4:5:6:7:80");
    // Groups are lower-case hexadecimal without leading zeros.
    assert_eq!(
        dest_of([0xfe80, 0x0abc, 0xffff, 0xffff, 0xffff, 0xffff, 0xffff, 0x000f], 1),
        "fe80:abc:ffff:ffff:ffff:ffff:ffff:f:1"
    );
}

#[test]
fn port_rendering_extremes() {
    let (dest, _) = parsed_dest(&[0x05, 0x01, 0x00, 0x01, 0, 0, 0, 0, 0xff, 0xff]);
    assert_eq!(dest, "0.0.0.0:65535");
    let (dest, _) = parsed_dest(&[0x05, 0x01, 0x00, 0x01, 255, 255, 255, 255, 0, 0]);
    assert_eq!(dest, "255.255.255.255:0");
}

#[test]
fn be16_combines_big_endian() {
    assert_eq!(be16(0x01, 0xbb), 443);
    assert_eq!(be16(0, 80), 80);
    assert_eq!(be16(0xff, 0xff), 0xffff);
}

#[test]
fn reply_layout() {
    assert_eq!(reply_bytes(0), vec![5, 0, 0, 1, 0, 0, 0, 0, 0, 0]);
    assert_eq!(reply_bytes(1), vec![5, 1, 0, 1, 0, 0, 0, 0, 0, 0]);
}

#[test]
fn round_trip_ipv4() {
    let dest = DestAddr { host: Host::V4([93, 184, 216, 34]), port: 80 };
    let text = dest_text_of(&dest);
    let wire = encode_addr(&dest);
    assert_eq!(wire, vec![0x01, 93, 184, 216, 34, 0, 80]);
    let (back, used) = decode_addr(&wire).expect("round trip must decode");
    assert_eq!(used, wire.len());
    assert_eq!(dest_text_of(&back), text);
    assert_eq!(back.port, 80);
    assert!(matches!(back.host, Host::V4([93, 184, 216, 34])));
}

#[test]
fn round_trip_domain() {
    let dest = DestAddr { host: Host::Domain(b"example.com".to_vec()), port: 80 };
    let text = dest_text_of(&dest);
    let wire = encode_addr(&dest);
    let mut expected = vec![0x03, 11];
    expected.extend_from_slice(b"example.com");
    expected.extend_from_slice(&[0, 80]);
    assert_eq!(wire, expected);
    let (back, used) = decode_addr(&wire).expect("round trip must decode");
    assert_eq!(used, wire.len());
    assert_eq!(dest_text_of(&back), text);
    match back.host {
        Host::Domain(name) => assert_eq!(name, b"example.com".to_vec()),
        _ => panic!("wrong address tag after round trip"),
    }
}

#[test]
fn round_trip_ipv6() {
    let dest = DestAddr {
        host: Host::V6([0x2001, 0x0db8, 0, 0, 0, 0, 0, 1]),
        port: 443,
    };
    let text = dest_text_of(&dest);
    let wire = encode_addr(&dest);
    assert_eq!(wire[0], 0x04);
    assert_eq!(wire.len(), 19);
    let (back, used) = decode_addr(&wire).expect("round trip must decode");
    assert_eq!(used, 19);
    assert_eq!(dest_text_of(&back), text);
    assert_eq!(text, "2001:db8::1:443");
    assert!(matches!(back.host, Host::V6([0x2001, 0x0db8, 0, 0, 0, 0, 0, 1])));
}

#[test]
fn error_descriptions() {
    assert_eq!(SocksError::TransportError.describe(), "transport error");
    assert_eq!(SocksError::ProtocolViolation.describe(), "protocol violation");
    assert_eq!(SocksError::ConnectError.describe(), "connect error");
}
