use mania::hex::hex;
use mania::sign::{
    decode_sock_reply, dummy_sign, encode_sock_request, http_sign_outcome, plan_http_sign,
    sign_mode, sock_reply_len, SignMode, SignResult,
};

#[test]
fn hex_is_lower_case_two_digits_per_byte() {
    assert_eq!(hex(&[0x00, 0x0f, 0xa5, 0xff]), "000fa5ff");
    assert_eq!(hex(&[]), "");
}

#[test]
fn sign_mode_is_sock_only_for_exact_setting() {
    assert_eq!(sign_mode(Some("sock")), SignMode::Sock);
    assert_eq!(sign_mode(Some("Sock")), SignMode::Http);
    assert_eq!(sign_mode(Some("sockets")), SignMode::Http);
    assert_eq!(sign_mode(Some("")), SignMode::Http);
    assert_eq!(sign_mode(None), SignMode::Http);
}

#[test]
fn sock_request_frame_layout() {
    let req = encode_sock_request("wtlogin.login", 0x0102_0304, &[0xaa, 0xbb]);
    let mut expected = vec![0x01];
    // 4 (seq) + 13 (cmd) + 1 (NUL) + 2 (body) = 20
    expected.extend_from_slice(&[0, 0, 0, 20]);
    expected.extend_from_slice(&[1, 2, 3, 4]);
    expected.extend_from_slice(b"wtlogin.login");
    expected.push(0);
    expected.extend_from_slice(&[0xaa, 0xbb]);
    assert_eq!(req, expected);
}

#[test]
fn sock_request_length_field_counts_following_bytes() {
    let body = vec![7u8; 300];
    let req = encode_sock_request("a", 9, &body);
    let len = u32::from_be_bytes([req[1], req[2], req[3], req[4]]) as usize;
    assert_eq!(len, req.len() - 5);
    assert_eq!(req[0], 1);
}

#[test]
fn sock_reply_split() {
    let payload = b"tokXYsignature".to_vec();
    let r = decode_sock_reply(3, 2, &payload);
    assert_eq!(r.token, "tok");
    assert_eq!(&r.extra[..], b"XY");
    assert_eq!(&r.sign[..], b"signature");
}

#[test]
fn sock_reply_lossy_token() {
    let payload = vec![b'a', 0xff, b'b'];
    let r = decode_sock_reply(3, 0, &payload);
    assert_eq!(r.token, "a\u{fffd}b");
    assert!(r.extra.is_empty());
    assert!(r.sign.is_empty());
}

#[test]
fn sock_reply_length_sum() {
    assert_eq!(sock_reply_len(1, 2, 3), Some(6));
    assert_eq!(sock_reply_len(u32::MAX, 1, 0), None);
    assert_eq!(sock_reply_len(u32::MAX - 1, 0, 1), Some(u32::MAX));
}

#[test]
fn dummy_sign_is_twenty_zeros() {
    let d = dummy_sign();
    assert_eq!(&d.sign[..], &[0u8; 20][..]);
    assert!(d.extra.is_empty());
    assert_eq!(d.token, "");
}

#[test]
fn http_plan_needs_url() {
    assert!(plan_http_sign(None, "cmd", 1, &[1]).is_none());
    let req = plan_http_sign(Some("http://localhost/sign"), "trpc.o3.ecdh", 42, &[0xde, 0xad]).unwrap();
    assert_eq!(req.cmd, "trpc.o3.ecdh");
    assert_eq!(req.seq, 42);
    assert_eq!(req.src, "dead");
}

#[test]
fn http_outcome_falls_back_to_dummy() {
    let d = http_sign_outcome(None);
    assert_eq!(&d.sign[..], &[0u8; 20][..]);
    let v = SignResult {
        sign: bytes::Bytes::from_static(b"s"),
        extra: bytes::Bytes::from_static(b"e"),
        token: "t".to_string(),
    };
    let r = http_sign_outcome(Some(v));
    assert_eq!(&r.sign[..], b"s");
    assert_eq!(&r.extra[..], b"e");
    assert_eq!(r.token, "t");
}

#[test]
fn hex_distinguishes_inputs() {
    assert_ne!(hex(&[0x01, 0x23]), hex(&[0x12, 0x03]));
    assert_eq!(hex(&[0xab; 3]).len(), 6);
    assert!(hex(&[0x00, 0x9f, 0xfa]).chars().all(|c| c.is_ascii_digit() || ('a'..='f').contains(&c)));
}

#[test]
fn sock_reply_empty_parts() {
    let r = decode_sock_reply(0, 0, &[]);
    assert_eq!(r.token, "");
    assert!(r.extra.is_empty());
    assert!(r.sign.is_empty());
    assert_eq!(
        encode_sock_request("ab", 1, &[0xff]),
        vec![0x01, 0, 0, 0, 8, 0, 0, 0, 1, 0x61, 0x62, 0x00, 0xff]
    );
}

#[test]
fn sock_reply_one_byte_each() {
    assert_eq!(sock_reply_len(1, 1, 1), Some(3));
    let r = decode_sock_reply(1, 1, &[0x78, 0xaa, 0xbb]);
    assert_eq!(r.token, "x");
    assert_eq!(&r.extra[..], &[0xaa]);
    assert_eq!(&r.sign[..], &[0xbb]);
}
