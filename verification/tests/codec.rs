use proxy::address::{ATYP_DOMAIN, ATYP_IPV4, ATYP_IPV6};
use proxy::{Address, AddressEncodingError, DecodeError, Reply, Request, Response};

#[test]
fn test_ipv4_address_to_bytes() {
    let addr = Address::IPv4([127, 0, 0, 1]);
    let bytes = addr.to_bytes().unwrap();
    assert_eq!(bytes, vec![0x01, 127, 0, 0, 1]);
}

#[test]
fn test_domain_address_to_bytes() {
    let addr = Address::Domain("example.com".to_string());
    let bytes = addr.to_bytes().unwrap();
    let mut expected = vec![0x03, 11]; // type + length
    expected.extend_from_slice(b"example.com");
    assert_eq!(bytes, expected);
}

#[test]
fn test_ipv6_address_to_bytes() {
    let addr = Address::IPv6([0u8; 16]);
    let bytes = addr.to_bytes().unwrap();
    let mut expected = vec![0x04];
    expected.extend_from_slice(&[0u8; 16]);
    assert_eq!(bytes, expected);
}

#[test]
fn test_request_to_bytes_ipv4() {
    let req = Request {
        ver: 5,
        cmd: 1,
        rsv: 0,
        atyp: 0x01,
        dst_addr: Address::IPv4([127, 0, 0, 1]),
        dst_port: 8080,
    };

    let bytes = req.to_bytes().unwrap();
    // Expected: VER, CMD, RSV, ATYP + ADDR + PORT
    let mut expected = vec![5, 1, 0, 0x01, 127, 0, 0, 1];
    expected.extend_from_slice(&8080u16.to_be_bytes());
    assert_eq!(bytes, expected);
}

#[test]
fn test_request_to_bytes_domain() {
    let req = Request {
        ver: 5,
        cmd: 1,
        rsv: 0,
        atyp: 0x03,
        dst_addr: Address::Domain("example.com".to_string()),
        dst_port: 80,
    };

    let bytes = req.to_bytes().unwrap();
    // Expected: VER, CMD, RSV, ATYP + LEN + "example.com" + PORT
    let mut expected = vec![5, 1, 0, 0x03, 11];
    expected.extend_from_slice(b"example.com");
    expected.extend_from_slice(&80u16.to_be_bytes());
    assert_eq!(bytes, expected);
}

#[test]
fn test_response_from_bytes_ipv4() {
    let buf = vec![
        0x05, 0x00, 0x00, 0x01, // VER, REP, RSV, ATYP (IPv4)
        127, 0, 0, 1, // BND.ADDR
        0x1F, 0x90, // BND.PORT = 8080
    ];

    let resp = Response::from_bytes(&buf).unwrap();
    assert_eq!(resp.ver, 5);
    assert_eq!(resp.rep, 0);
    assert_eq!(resp.rsv, 0);
    assert_eq!(resp.atyp, 1);
    match resp.bnd_addr {
        Address::IPv4(addr) => assert_eq!(addr, [127, 0, 0, 1]),
        _ => panic!("Expected IPv4"),
    }
    assert_eq!(resp.bnd_port, 8080);
}

#[test]
fn test_response_from_bytes_domain() {
    let mut buf = vec![0x05, 0x00, 0x00, 0x03, 11]; // VER, REP, RSV, ATYP, LEN
    buf.extend_from_slice(b"example.com");
    buf.extend_from_slice(&80u16.to_be_bytes());

    let resp = Response::from_bytes(&buf).unwrap();
    assert_eq!(resp.ver, 5);
    assert_eq!(resp.rep, 0);
    assert_eq!(resp.atyp, 3);
    match resp.bnd_addr {
        Address::Domain(d) => assert_eq!(d, "example.com"),
        _ => panic!("Expected Domain"),
    }
    assert_eq!(resp.bnd_port, 80);
}

#[test]
fn test_response_from_bytes_ipv6() {
    let mut buf = vec![0x05, 0x00, 0x00, 0x04]; // VER, REP, RSV, ATYP (IPv6)
    buf.extend_from_slice(&[0u8; 16]); // BND.ADDR
    buf.extend_from_slice(&443u16.to_be_bytes());

    let resp = Response::from_bytes(&buf).unwrap();
    assert_eq!(resp.ver, 5);
    assert_eq!(resp.rep, 0);
    assert_eq!(resp.atyp, 4);
    match resp.bnd_addr {
        Address::IPv6(addr) => assert_eq!(addr, [0u8; 16]),
        _ => panic!("Expected IPv6"),
    }
    assert_eq!(resp.bnd_port, 443);
}

#[test]
fn tag_follows_the_variant() {
    assert_eq!(Address::IPv4([1, 2, 3, 4]).atyp(), ATYP_IPV4);
    assert_eq!(Address::Domain("a".to_string()).atyp(), ATYP_DOMAIN);
    assert_eq!(Address::IPv6([7u8; 16]).atyp(), ATYP_IPV6);
    assert_eq!((ATYP_IPV4, ATYP_DOMAIN, ATYP_IPV6), (0x01, 0x03, 0x04));
}

#[test]
fn empty_domain_encodes_to_tag_and_zero_length() {
    let bytes = Address::Domain(String::new()).to_bytes().unwrap();
    assert_eq!(bytes, vec![0x03, 0]);
}

#[test]
fn domain_of_255_bytes_is_the_longest_that_encodes() {
    let name = "a".repeat(255);
    let bytes = Address::Domain(name.clone()).to_bytes().unwrap();
    assert_eq!(bytes.len(), 2 + 255);
    assert_eq!(&bytes[..2], &[0x03, 255]);
    assert_eq!(&bytes[2..], name.as_bytes());
}

#[test]
fn domain_of_256_bytes_is_rejected_not_truncated() {
    let addr = Address::Domain("a".repeat(256));
    assert_eq!(addr.to_bytes(), Err(AddressEncodingError { len: 256 }));
}

#[test]
fn domain_length_counts_bytes_not_characters() {
    // 128 two-byte characters: 256 bytes.
    let long = Address::Domain("é".repeat(128));
    assert_eq!(long.to_bytes(), Err(AddressEncodingError { len: 256 }));
    // 127 of them and one ASCII letter: 255 bytes.
    let mut name = "é".repeat(127);
    name.push('x');
    let bytes = Address::Domain(name.clone()).to_bytes().unwrap();
    assert_eq!(bytes[1], 255);
    assert_eq!(&bytes[2..], name.as_bytes());
}

#[test]
fn request_with_too_long_domain_is_rejected() {
    let req = Request::connect(Address::Domain("b".repeat(300)), 443);
    assert_eq!(req.to_bytes(), Err(AddressEncodingError { len: 300 }));
}

#[test]
fn connect_request_fills_the_fixed_fields() {
    let req = Request::connect(Address::Domain("kali.org".to_string()), 443);
    assert_eq!(
        req,
        Request {
            ver: 5,
            cmd: 1,
            rsv: 0,
            atyp: 0x03,
            dst_addr: Address::Domain("kali.org".to_string()),
            dst_port: 443,
        }
    );
    let mut expected = vec![5, 1, 0, 3, 8];
    expected.extend_from_slice(b"kali.org");
    expected.extend_from_slice(&[0x01, 0xBB]);
    assert_eq!(req.to_bytes().unwrap(), expected);
    assert_eq!(Request::connect(Address::IPv4([10, 0, 0, 1]), 1).atyp, 0x01);
    assert_eq!(Request::connect(Address::IPv6([0u8; 16]), 1).atyp, 0x04);
}

#[test]
fn request_tag_on_the_wire_is_that_of_the_address() {
    let req = Request {
        ver: 5,
        cmd: 1,
        rsv: 0,
        atyp: 0x04,
        dst_addr: Address::IPv4([10, 0, 0, 1]),
        dst_port: 0x1234,
    };
    assert_eq!(req.to_bytes().unwrap(), vec![5, 1, 0, 0x01, 10, 0, 0, 1, 0x12, 0x34]);
}

#[test]
fn port_is_big_endian() {
    for port in [0u16, 1, 255, 256, 0x1F90, 0xFF00, 0xFFFF] {
        let bytes = Request::connect(Address::IPv4([0, 0, 0, 0]), port).to_bytes().unwrap();
        assert_eq!(&bytes[8..], &port.to_be_bytes());
        let resp = Response::from_bytes(&bytes).unwrap();
        assert_eq!(resp.bnd_port, port);
    }
}

#[test]
fn address_decode_reports_bytes_consumed() {
    assert_eq!(
        Address::from_bytes(&[0x01, 192, 168, 0, 1], 0),
        Ok((Address::IPv4([192, 168, 0, 1]), 5))
    );
    assert_eq!(
        Address::from_bytes(&[0x03, 3, b'f', b'o', b'o'], 0),
        Ok((Address::Domain("foo".to_string()), 5))
    );
    assert_eq!(Address::from_bytes(&[0x03, 0], 0), Ok((Address::Domain(String::new()), 2)));
    let mut v6 = vec![0x04];
    v6.extend_from_slice(&[9u8; 16]);
    assert_eq!(Address::from_bytes(&v6, 0), Ok((Address::IPv6([9u8; 16]), 17)));
}

#[test]
fn address_decode_starts_at_the_offset_and_ignores_what_follows() {
    let buf = [0xAA, 0xBB, 0x01, 1, 2, 3, 4, 0xCC, 0xDD];
    assert_eq!(Address::from_bytes(&buf, 2), Ok((Address::IPv4([1, 2, 3, 4]), 5)));
    let buf = [0xAA, 0x03, 2, b'h', b'i', 0xCC];
    assert_eq!(Address::from_bytes(&buf, 1), Ok((Address::Domain("hi".to_string()), 4)));
}

#[test]
fn address_decode_unknown_type() {
    for tag in [0x00u8, 0x02, 0x05, 0x7F, 0xFF] {
        let mut buf = vec![tag];
        buf.extend_from_slice(&[0u8; 32]);
        assert_eq!(Address::from_bytes(&buf, 0), Err(DecodeError::UnknownAddressType));
        assert_eq!(Address::from_bytes(&[tag], 0), Err(DecodeError::UnknownAddressType));
    }
}

#[test]
fn address_decode_insufficient_bytes() {
    assert_eq!(Address::from_bytes(&[], 0), Err(DecodeError::InsufficientBytes));
    assert_eq!(Address::from_bytes(&[0x01, 1, 2, 3, 4], 5), Err(DecodeError::InsufficientBytes));
    assert_eq!(Address::from_bytes(&[0x01, 1, 2, 3, 4], usize::MAX), Err(DecodeError::InsufficientBytes));
    assert_eq!(Address::from_bytes(&[0x01, 1, 2, 3], 0), Err(DecodeError::InsufficientBytes));
    assert_eq!(Address::from_bytes(&[0x03], 0), Err(DecodeError::InsufficientBytes));
    assert_eq!(Address::from_bytes(&[0x03, 4, b'a', b'b', b'c'], 0), Err(DecodeError::InsufficientBytes));
    assert_eq!(Address::from_bytes(&[0x04, 0, 0, 0, 0, 0, 0, 0, 0, 0, 0, 0, 0, 0, 0, 0], 0), Err(DecodeError::InsufficientBytes));
}

#[test]
fn address_round_trip_all_variants() {
    let mut longest = "x".repeat(249);
    longest.push_str("ümlä");
    assert_eq!(longest.len(), 255);
    let addresses = vec![
        Address::IPv4([0, 0, 0, 0]),
        Address::IPv4([255, 254, 253, 252]),
        Address::Domain(String::new()),
        Address::Domain("example.com".to_string()),
        Address::Domain("bücher.example".to_string()),
        Address::Domain(longest),
        Address::IPv6([0x20, 0x01, 0x0d, 0xb8, 0, 0, 0, 0, 0, 0, 0, 0, 0, 0, 0, 1]),
    ];
    for addr in addresses {
        let bytes = addr.to_bytes().unwrap();
        assert_eq!(Address::from_bytes(&bytes, 0), Ok((addr.clone(), bytes.len())));
        let mut framed = vec![1, 2, 3];
        framed.extend_from_slice(&bytes);
        framed.extend_from_slice(&[9, 9]);
        assert_eq!(Address::from_bytes(&framed, 3), Ok((addr, bytes.len())));
    }
}

#[test]
fn request_bytes_decode_as_response_with_same_address_and_port() {
    let targets = vec![
        (Address::IPv4([127, 0, 0, 1]), 8080u16),
        (Address::Domain("example.com".to_string()), 80),
        (Address::Domain(String::new()), 0),
        (Address::IPv6([1u8; 16]), 65535),
    ];
    for (target, port) in targets {
        let req = Request::connect(target.clone(), port);
        let resp = Response::from_bytes(&req.to_bytes().unwrap()).unwrap();
        assert_eq!(
            resp,
            Response {
                ver: 5,
                rep: 1,
                rsv: 0,
                atyp: target.atyp(),
                bnd_addr: target,
                bnd_port: port,
            }
        );
    }
}

#[test]
fn domain_bytes_that_are_not_utf8_are_repaired() {
    let buf = [0x05, 0x00, 0x00, 0x03, 3, b'a', 0xFF, b'b', 0x00, 0x50];
    let resp = Response::from_bytes(&buf).unwrap();
    assert_eq!(resp.bnd_addr, Address::Domain("a\u{FFFD}b".to_string()));
    assert_eq!(resp.bnd_port, 80);
    // A sequence cut short at the end of the name is repaired too.
    assert_eq!(
        Address::from_bytes(&[0x03, 2, b'z', 0xC3], 0),
        Ok((Address::Domain("z\u{FFFD}".to_string()), 4))
    );
}

#[test]
fn domain_bytes_that_are_utf8_are_decoded() {
    let name = "münchen.example";
    let mut buf = vec![0x03, name.len() as u8];
    buf.extend_from_slice(name.as_bytes());
    assert_eq!(
        Address::from_bytes(&buf, 0),
        Ok((Address::Domain(name.to_string()), 2 + name.len()))
    );
}

#[test]
fn response_shorter_than_header_is_refused() {
    assert_eq!(Response::from_bytes(&[]), None);
    assert_eq!(Response::from_bytes(&[5]), None);
    assert_eq!(Response::from_bytes(&[5, 0, 0]), None);
}

#[test]
fn response_cut_short_is_refused_for_each_family() {
    let whole_v4 = vec![5, 0, 0, 1, 127, 0, 0, 1, 0x1F, 0x90];
    let mut whole_domain = vec![5, 0, 0, 3, 11];
    whole_domain.extend_from_slice(b"example.com");
    whole_domain.extend_from_slice(&[0, 80]);
    let mut whole_v6 = vec![5, 0, 0, 4];
    whole_v6.extend_from_slice(&[0u8; 16]);
    whole_v6.extend_from_slice(&[1, 187]);
    assert_eq!((whole_v4.len(), whole_domain.len(), whole_v6.len()), (10, 18, 22));
    for whole in [whole_v4, whole_domain, whole_v6] {
        assert!(Response::from_bytes(&whole).is_some());
        for cut in 0..whole.len() {
            assert_eq!(Response::from_bytes(&whole[..cut]), None);
        }
    }
}

#[test]
fn response_with_domain_tag_and_no_length_octet_is_refused() {
    assert_eq!(Response::from_bytes(&[5, 0, 0, 3]), None);
}

#[test]
fn response_with_unknown_address_type_is_refused() {
    for tag in [0x00u8, 0x02, 0x05, 0xFF] {
        let mut buf = vec![5, 0, 0, tag];
        buf.extend_from_slice(&[0u8; 40]);
        assert_eq!(Response::from_bytes(&buf), None);
    }
}

#[test]
fn response_ignores_bytes_behind_the_port() {
    let mut buf = vec![5, 0, 0, 1, 10, 0, 0, 2, 0x04, 0x38];
    buf.extend_from_slice(&[0xEE; 20]);
    let resp = Response::from_bytes(&buf).unwrap();
    assert_eq!(resp.bnd_addr, Address::IPv4([10, 0, 0, 2]));
    assert_eq!(resp.bnd_port, 1080);
}

#[test]
fn response_keeps_fixed_octets_as_received() {
    let resp = Response::from_bytes(&[4, 9, 7, 1, 1, 2, 3, 4, 0, 1]).unwrap();
    assert_eq!((resp.ver, resp.rep, resp.rsv, resp.atyp), (4, 9, 7, 1));
}

#[test]
fn reply_codes_are_classified() {
    let known = [
        (0u8, Reply::Succeeded),
        (1, Reply::GeneralFailure),
        (2, Reply::NotAllowedByRuleset),
        (3, Reply::NetworkUnreachable),
        (4, Reply::HostUnreachable),
        (5, Reply::ConnectionRefused),
        (6, Reply::TtlExpired),
        (7, Reply::CommandNotSupported),
        (8, Reply::AddressTypeNotSupported),
        (9, Reply::Unassigned(9)),
        (255, Reply::Unassigned(255)),
    ];
    for (code, reply) in known {
        assert_eq!(Reply::from_code(code), reply);
        assert_eq!(reply.code(), code);
    }
    for code in 0..=255u8 {
        assert_eq!(Reply::from_code(code).code(), code);
    }
}

#[test]
fn clone_keeps_the_address() {
    for addr in [
        Address::IPv4([8, 8, 4, 4]),
        Address::Domain("example.org".to_string()),
        Address::IPv6([0xFE; 16]),
    ] {
        assert_eq!(addr.clone(), addr);
    }
}

#[test]
fn decoded_tag_field_agrees_with_the_address() {
    let mut domain = vec![5, 0, 0, 3, 1, b'x', 0, 1];
    let v4 = vec![5, 0, 0, 1, 1, 1, 1, 1, 0, 1];
    let mut v6 = vec![5, 0, 0, 4];
    v6.extend_from_slice(&[2u8; 18]);
    domain.push(0xEE);
    for buf in [domain, v4, v6] {
        let resp = Response::from_bytes(&buf).unwrap();
        assert_eq!(resp.atyp, resp.bnd_addr.atyp());
        assert_eq!(resp.atyp, buf[3]);
    }
}
