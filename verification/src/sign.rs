//! Signing of outgoing packets: the request and reply formats of the Linux
//! sign server (socket and HTTP transports) and the decisions around them.

use vstd::prelude::*;
use vstd::utf8::*;
use vstd::string::StringSliceAdditionalSpecFns;

use crate::buffer::{bytes_content, bytes_copy_from_slice, bytes_from_static, bytes_new};
use crate::hex::{hex, spec_hex};

verus! {

/// A signature for one outgoing packet.
pub struct SignResult {
    pub sign: bytes::Bytes,
    pub extra: bytes::Bytes,
    pub token: String,
}

/// A source of packet signatures. Users may plug in their own.
pub trait SignProvider {
    /// Signs the packet body `body` of command `cmd` with sequence `seq`.
    fn sign_impl(&self, cmd: &str, seq: u32, body: &[u8]) -> Option<SignResult>;
}

/// How the Linux sign provider reaches its server.
#[derive(PartialEq, Eq, Structural, Debug, Clone, Copy)]
pub enum SignMode {
    /// A local stream socket speaking the binary frame format.
    Sock,
    /// An HTTP server speaking JSON.
    Http,
}

/// The mode picked by the value of the mode setting: the socket only when the
/// setting is exactly `sock`.
pub open spec fn spec_sign_mode(setting: Option<Seq<char>>) -> SignMode {
    if setting == Some("sock"@) {
        SignMode::Sock
    } else {
        SignMode::Http
    }
}

fn slices_equal(a: &[u8], b: &[u8]) -> (res: bool)
    ensures
        res == (a@ == b@),
{
    if a.len() != b.len() {
        return false;
    }
    let n = a.len();
    for i in 0..n
        invariant
            n == a@.len(),
            n == b@.len(),
            forall|j: int| 0 <= j < i ==> a@[j] == b@[j],
    {
        if a[i] != b[i] {
            return false;
        }
    }
    assert(a@ =~= b@);
    true
}

/// Chooses the transport from the mode setting (`None` when it is unset).
pub fn sign_mode(setting: Option<&str>) -> (res: SignMode)
    ensures
        res == spec_sign_mode(
            match setting {
                Some(s) => Some(s@),
                None => None,
            },
        ),
{
    match setting {
        Some(s) => {
            let sock = "sock";
            proof {
                reveal_strlit("sock");
                encode_utf8_decode_utf8(s@);
                encode_utf8_decode_utf8(sock@);
            }
            if slices_equal(s.as_bytes(), sock.as_bytes()) {
                SignMode::Sock
            } else {
                SignMode::Http
            }
        },
        None => SignMode::Http,
    }
}

/// A 32-bit value in network (big-endian) byte order.
pub open spec fn be32(x: u32) -> Seq<u8> {
    seq![(x >> 24) as u8, (x >> 16) as u8, (x >> 8) as u8, x as u8]
}

/// The value of four bytes in network byte order.
pub open spec fn read_be32(b: Seq<u8>) -> int
    recommends
        b.len() >= 4,
{
    b[0] as int * 0x100_0000 + b[1] as int * 0x1_0000 + b[2] as int * 0x100 + b[3] as int
}

/// The length field of a socket request: the bytes that follow it, counted
/// modulo 2^32 as the wire field holds them.
pub open spec fn sock_body_len(cmd: Seq<u8>, body: Seq<u8>) -> u32 {
    (4 + cmd.len() + 1 + body.len()) as u32
}

/// A socket sign request: the byte 1, the length of what follows in four
/// bytes, the sequence in four bytes, the command NUL-terminated, the body.
pub open spec fn spec_sock_request(cmd: Seq<u8>, seq: u32, body: Seq<u8>) -> Seq<u8> {
    seq![1u8] + be32(sock_body_len(cmd, body)) + be32(seq) + cmd + seq![0u8] + body
}

fn push_be32(v: &mut Vec<u8>, x: u32)
    ensures
        final(v)@ == old(v)@ + be32(x),
{
    v.push((x >> 24) as u8);
    v.push((x >> 16) as u8);
    v.push((x >> 8) as u8);
    v.push(x as u8);
    assert(final(v)@ =~= old(v)@ + be32(x));
}

fn push_all(v: &mut Vec<u8>, data: &[u8])
    ensures
        final(v)@ == old(v)@ + data@,
{
    let n = data.len();
    for i in 0..n
        invariant
            n == data@.len(),
            v@ == old(v)@ + data@.subrange(0, i as int),
    {
        v.push(data[i]);
        assert(v@ =~= old(v)@ + data@.subrange(0, i + 1));
    }
    assert(data@.subrange(0, n as int) =~= data@);
}

/// Frames a sign request for the socket transport.
pub fn encode_sock_request(cmd: &str, seq: u32, body: &[u8]) -> (res: Vec<u8>)
    ensures
        res@ == spec_sock_request(cmd.spec_bytes(), seq, body@),
{
    let cmd_bytes = cmd.as_bytes();
    let capacity = cmd_bytes.len().saturating_add(body.len()).saturating_add(10);
    let mut req: Vec<u8> = Vec::with_capacity(capacity);
    req.push(1u8);
    let body_len = (4u128 + cmd_bytes.len() as u128 + 1u128 + body.len() as u128) as u32;
    push_be32(&mut req, body_len);
    push_be32(&mut req, seq);
    push_all(&mut req, cmd_bytes);
    req.push(0u8);
    push_all(&mut req, body);
    assert(req@ =~= spec_sock_request(cmd.spec_bytes(), seq, body@));
    req
}

proof fn lemma_read_be32(x: u32)
    ensures
        read_be32(be32(x)) == x,
{
    let b0 = (x >> 24) as u8;
    let b1 = (x >> 16) as u8;
    let b2 = (x >> 8) as u8;
    let b3 = x as u8;
    assert(b0 as int * 0x100_0000 + b1 as int * 0x1_0000 + b2 as int * 0x100 + b3 as int == x)
        by (bit_vector)
        requires
            b0 == (x >> 24) as u8,
            b1 == (x >> 16) as u8,
            b2 == (x >> 8) as u8,
            b3 == x as u8,
    ;
}

/// The length field of a socket request counts exactly the bytes that follow
/// it: the sequence, the NUL-terminated command and the body.
pub proof fn law_sock_request_length(cmd: Seq<u8>, seq: u32, body: Seq<u8>)
    requires
        4 + cmd.len() + 1 + body.len() <= u32::MAX,
    ensures
        spec_sock_request(cmd, seq, body).len() == 1 + 4 + read_be32(
            spec_sock_request(cmd, seq, body).subrange(1, 5),
        ),
        spec_sock_request(cmd, seq, body)[0] == 1u8,
        read_be32(spec_sock_request(cmd, seq, body).subrange(5, 9)) == seq,
        spec_sock_request(cmd, seq, body).subrange(9, 9 + cmd.len() as int) == cmd,
        spec_sock_request(cmd, seq, body)[9 + cmd.len() as int] == 0u8,
        spec_sock_request(cmd, seq, body).subrange(10 + cmd.len() as int, 10 + cmd.len() + body.len() as int) == body,
        spec_sock_request(cmd, seq, body).len() == 10 + cmd.len() + body.len(),
{
    let r = spec_sock_request(cmd, seq, body);
    assert(r.subrange(9, 9 + cmd.len() as int) =~= cmd);
    assert(r.subrange(10 + cmd.len() as int, 10 + cmd.len() + body.len() as int) =~= body);
    lemma_read_be32(sock_body_len(cmd, body));
    lemma_read_be32(seq);
    assert(r.subrange(1, 5) =~= be32(sock_body_len(cmd, body)));
    assert(r.subrange(5, 9) =~= be32(seq));
}

/// What `String::from_utf8_lossy` makes of a byte string.
pub uninterp spec fn lossy_utf8(bytes: Seq<u8>) -> Seq<char>;

/// `String::from_utf8_lossy`, made owned: the text of `bytes`, with each
/// invalid sequence replaced; valid UTF-8 is decoded unchanged.
#[verifier::external_body]
fn utf8_lossy_string(bytes: &[u8]) -> (res: String)
    ensures
        res@ == lossy_utf8(bytes@),
        valid_utf8(bytes@) ==> res@ == decode_utf8(bytes@),
{
    String::from_utf8_lossy(bytes).into_owned()
}

fn sub_slice(data: &[u8], from: usize, to: usize) -> (res: Vec<u8>)
    requires
        from <= to <= data@.len(),
    ensures
        res@ == data@.subrange(from as int, to as int),
{
    let mut out: Vec<u8> = Vec::with_capacity(to - from);
    for i in from..to
        invariant
            from <= to <= data@.len(),
            out@ == data@.subrange(from as int, i as int),
    {
        out.push(data[i]);
        assert(out@ =~= data@.subrange(from as int, i + 1));
    }
    out
}

/// Splits the payload of a socket sign reply, whose three parts are
/// `token_len`, `extra_len` and the rest of the bytes long.
pub fn decode_sock_reply(token_len: u32, extra_len: u32, payload: &[u8]) -> (res: SignResult)
    requires
        token_len + extra_len <= payload@.len(),
    ensures
        res.token@ == lossy_utf8(payload@.subrange(0, token_len as int)),
        valid_utf8(payload@.subrange(0, token_len as int)) ==> res.token@ == decode_utf8(
            payload@.subrange(0, token_len as int),
        ),
        bytes_content(res.extra) == payload@.subrange(token_len as int, token_len + extra_len),
        bytes_content(res.sign) == payload@.subrange(token_len + extra_len, payload@.len() as int),
{
    let t = token_len as usize;
    // The slice's length is a usize, so the end of the extra part is one too.
    assert(token_len + extra_len <= payload.len());
    let e = t + extra_len as usize;
    let token_bytes = sub_slice(payload, 0, t);
    let extra_bytes = sub_slice(payload, t, e);
    let sign_bytes = sub_slice(payload, e, payload.len());
    SignResult {
        token: utf8_lossy_string(token_bytes.as_slice()),
        extra: bytes_copy_from_slice(extra_bytes.as_slice()),
        sign: bytes_copy_from_slice(sign_bytes.as_slice()),
    }
}

/// The total payload length announced by the three length fields of a socket
/// sign reply, when it fits in 32 bits.
pub fn sock_reply_len(token_len: u32, extra_len: u32, sign_len: u32) -> (res: Option<u32>)
    ensures
        token_len + extra_len + sign_len <= u32::MAX ==> res == Some(
            (token_len + extra_len + sign_len) as u32,
        ),
        token_len + extra_len + sign_len > u32::MAX ==> res is None,
{
    if token_len > u32::MAX - extra_len {
        return None;
    }
    let s = token_len + extra_len;
    if s > u32::MAX - sign_len {
        return None;
    }
    Some(s + sign_len)
}

const DUMMY_SIGN: [u8; 20] = [0u8, 0u8, 0u8, 0u8, 0u8, 0u8, 0u8, 0u8, 0u8, 0u8, 0u8, 0u8, 0u8, 0u8, 0u8, 0u8, 0u8, 0u8, 0u8, 0u8];

/// The placeholder signature used when no server answers: twenty zero bytes,
/// no extra data, no token.
pub open spec fn is_dummy_sign(r: SignResult) -> bool {
    &&& bytes_content(r.sign) == Seq::new(20, |i: int| 0u8)
    &&& bytes_content(r.extra) == Seq::<u8>::empty()
    &&& r.token@ == Seq::<char>::empty()
}

/// The placeholder signature.
pub fn dummy_sign() -> (res: SignResult)
    ensures
        is_dummy_sign(res),
{
    let res = SignResult {
        sign: bytes_from_static(&DUMMY_SIGN),
        extra: bytes_new(),
        token: String::new(),
    };
    assert(bytes_content(res.sign) =~= Seq::new(20, |i: int| 0u8));
    res
}

/// The JSON request sent to an HTTP sign server.
pub struct SignServerReq {
    pub cmd: String,
    pub seq: u32,
    /// The packet body as lower-case hex.
    pub src: String,
}

/// The request to send over HTTP, or `None` when no server URL is set (the
/// placeholder signature is then used).
pub fn plan_http_sign(url: Option<&str>, cmd: &str, seq: u32, body: &[u8]) -> (res: Option<
    SignServerReq,
>)
    ensures
        url is None <==> res is None,
        res matches Some(req) ==> req.cmd@ == cmd@ && req.seq == seq && req.src@ == spec_hex(
            body@,
        ),
{
    match url {
        Some(_) => Some(SignServerReq { cmd: cmd.to_owned(), seq, src: hex(body) }),
        None => None,
    }
}

/// The signature an HTTP exchange yields: the server's value when a reply was
/// received and understood, the placeholder otherwise.
pub fn http_sign_outcome(reply: Option<SignResult>) -> (res: SignResult)
    ensures
        reply matches Some(v) ==> res == v,
        reply is None ==> is_dummy_sign(res),
{
    match reply {
        Some(v) => v,
        None => dummy_sign(),
    }
}

/// The socket transport is used exactly when the mode setting is `sock`.
pub proof fn law_sign_mode(setting: Option<Seq<char>>)
    ensures
        (spec_sign_mode(setting) == SignMode::Sock) <==> setting == Some("sock"@),
        (spec_sign_mode(setting) == SignMode::Http) <==> setting != Some("sock"@),
{
}

/// The placeholder signature is twenty zero bytes, with no extra data and an
/// empty token.
pub proof fn law_dummy_sign(r: SignResult)
    requires
        is_dummy_sign(r),
    ensures
        bytes_content(r.sign).len() == 20,
        forall|i: int| 0 <= i < 20 ==> bytes_content(r.sign)[i] == 0u8,
        bytes_content(r.extra).len() == 0,
        r.token@.len() == 0,
{
}

} // verus!
