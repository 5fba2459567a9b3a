//! RFC 6455 framing for the host transport: the client-to-server frame
//! decoder (frames must be FIN and masked) and the server-to-client frame
//! encoder (unmasked).
use vstd::prelude::*;

verus! {

/// Largest payload the transport accepts in one frame (500 MiB).
pub const PAYLOAD_LIMIT: usize = 524288000;

/// Why a frame could not be read.
#[derive(Debug, Clone, Copy, PartialEq, Eq, Structural)]
pub enum FrameError {
    /// The stream ended before a frame header.
    ConnectionClosed,
    /// The frame was not FIN or not masked.
    Invalid,
    /// The declared payload is larger than the transport accepts.
    TooLarge,
    /// The stream ended inside a frame.
    Io,
}

/// The first two header bytes, decoded.
#[derive(Debug, Clone, Copy, PartialEq, Eq, Structural)]
pub struct FrameStart {
    /// Low four bits of the first byte.
    pub opcode: u8,
    /// Low seven bits of the second byte (`126` and `127` announce an
    /// extended length).
    pub length_code: u8,
}

/// A decoded (unmasked) frame.
pub struct WebSocketFrame {
    pub opcode: u8,
    pub payload: Vec<u8>,
}

/// Header bytes 0 and 1 of a client frame.
pub open spec fn frame_start_spec(b0: u8, b1: u8) -> Result<FrameStart, FrameError> {
    if b0 & 0x80u8 == 0 || b1 & 0x80u8 == 0 {
        Err(FrameError::Invalid)
    } else {
        Ok(FrameStart { opcode: b0 & 0x0Fu8, length_code: b1 & 0x7Fu8 })
    }
}

/// How many extended-length bytes follow the two header bytes.
pub open spec fn ext_len_spec(length_code: u8) -> nat {
    if length_code == 126 {
        2
    } else if length_code == 127 {
        8
    } else {
        0
    }
}

/// Big-endian value of a byte sequence.
pub open spec fn be_value(bytes: Seq<u8>) -> nat
    decreases bytes.len(),
{
    if bytes.len() == 0 {
        0
    } else {
        be_value(bytes.drop_last()) * 256 + bytes.last() as nat
    }
}

/// The `n` low-order bytes of `x`, most significant first.
pub open spec fn be_bytes(x: nat, n: nat) -> Seq<u8>
    decreases n,
{
    if n == 0 {
        Seq::empty()
    } else {
        be_bytes(x / 256, (n - 1) as nat).push((x % 256) as u8)
    }
}

pub open spec fn pow256(n: nat) -> nat
    decreases n,
{
    if n == 0 {
        1
    } else {
        256 * pow256((n - 1) as nat)
    }
}

/// Payload length announced by a length code and its extended bytes.
pub open spec fn payload_length_spec(length_code: u8, ext: Seq<u8>) -> Result<nat, FrameError> {
    let len: nat = if ext_len_spec(length_code) == 0 {
        length_code as nat
    } else {
        be_value(ext)
    };
    if ext_len_spec(length_code) == 8 && len > usize::MAX {
        Err(FrameError::TooLarge)
    } else if len > PAYLOAD_LIMIT {
        Err(FrameError::TooLarge)
    } else {
        Ok(len)
    }
}

/// `payload` with each byte XORed with the mask byte at its index modulo 4.
pub open spec fn unmask_spec(payload: Seq<u8>, mask: Seq<u8>) -> Seq<u8> {
    Seq::new(payload.len(), |i: int| payload[i] ^ mask[i % 4])
}

/// What reading one client frame from a stream that yields exactly `s` and
/// then ends gives: the opcode, the unmasked payload and the number of bytes
/// the frame took.
pub open spec fn decode_client_frame_spec(s: Seq<u8>) -> Result<(u8, Seq<u8>, nat), FrameError> {
    if s.len() < 2 {
        Err(FrameError::ConnectionClosed)
    } else {
        match frame_start_spec(s[0], s[1]) {
            Err(e) => Err(e),
            Ok(start) => {
                let e: int = ext_len_spec(start.length_code) as int;
                if s.len() < 2 + e {
                    Err(FrameError::Io)
                } else {
                    match payload_length_spec(start.length_code, s.subrange(2, 2 + e)) {
                        Err(err) => Err(err),
                        Ok(len) => {
                            let len = len as int;
                            let mask_at: int = 2 + e as int;
                            let body_at: int = mask_at + 4;
                            if s.len() < body_at + len {
                                Err(FrameError::Io)
                            } else {
                                Ok(
                                    (
                                        start.opcode,
                                        unmask_spec(
                                            s.subrange(body_at, body_at + len),
                                            s.subrange(mask_at, mask_at + 4),
                                        ),
                                        (body_at + len) as nat,
                                    ),
                                )
                            }
                        },
                    }
                }
            },
        }
    }
}

/// What a decoded client frame says about the bytes it came from (RFC 6455
/// 5.2 and 5.3): both header flags (FIN and MASK) were set, the opcode is the
/// low four bits of the first byte, the frame took `used` bytes of which the
/// last `payload.len()` are the masked payload and the four before them the
/// masking key, and payload byte `i` is the frame's body byte `i` XORed with
/// key byte `i % 4`. A length below 126 is the second byte's low seven bits.
pub proof fn lemma_decoded_frame_bytes(s: Seq<u8>)
    ensures
        decode_client_frame_spec(s) is Ok ==> {
            let (opcode, payload, used) = decode_client_frame_spec(s)->Ok_0;
            let body_at = used - payload.len();
            &&& used <= s.len()
            &&& body_at >= 6
            &&& s[0] & 0x80u8 != 0
            &&& s[1] & 0x80u8 != 0
            &&& opcode == s[0] & 0x0Fu8
            &&& (s[1] & 0x7Fu8) < 126 ==> payload.len() == (s[1] & 0x7Fu8) && body_at == 6
            &&& forall|i: int|
                0 <= i < payload.len() ==> #[trigger] payload[i] == s[body_at + i] ^ s[body_at - 4 + i % 4]
        },
{
    if decode_client_frame_spec(s) is Ok {
        let start = frame_start_spec(s[0], s[1])->Ok_0;
        let e: int = ext_len_spec(start.length_code) as int;
        let len = payload_length_spec(start.length_code, s.subrange(2, 2 + e))->Ok_0 as int;
        let mask_at = 2 + e;
        let body_at = mask_at + 4;
        let (opcode, payload, used) = decode_client_frame_spec(s)->Ok_0;
        assert(payload == unmask_spec(s.subrange(body_at, body_at + len), s.subrange(mask_at, mask_at + 4)));
        assert(used == body_at + len);
        assert forall|i: int| 0 <= i < payload.len() implies #[trigger] payload[i] == s[body_at + i] ^ s[body_at
            - 4 + i % 4] by {
            assert(s.subrange(body_at, body_at + len)[i] == s[body_at + i]);
            assert(s.subrange(mask_at, mask_at + 4)[i % 4] == s[mask_at + i % 4]);
        }
    }
}

/// Header of a server-to-client frame carrying `len` payload bytes.
pub open spec fn encode_header_spec(opcode: u8, len: nat) -> Seq<u8> {
    seq![0x80u8 | (opcode & 0x0Fu8)] + if len <= 125 {
        seq![len as u8]
    } else if len <= 65535 {
        seq![126u8] + be_bytes(len, 2)
    } else {
        seq![127u8] + be_bytes(len, 8)
    }
}

pub proof fn lemma_be_bytes_len(x: nat, n: nat)
    ensures
        be_bytes(x, n).len() == n,
    decreases n,
{
    if n > 0 {
        lemma_be_bytes_len(x / 256, (n - 1) as nat);
    }
}

pub proof fn lemma_be_value_bound(bytes: Seq<u8>)
    ensures
        be_value(bytes) < pow256(bytes.len()),
    decreases bytes.len(),
{
    if bytes.len() > 0 {
        lemma_be_value_bound(bytes.drop_last());
        let p = pow256((bytes.len() - 1) as nat);
        let v = be_value(bytes.drop_last());
        assert(v * 256 + (bytes.last() as nat) < 256 * p) by (nonlinear_arith)
            requires
                v < p,
                bytes.last() < 256,
        ;
    }
}

/// Writing `x` as `n` big-endian bytes and reading it back gives `x`.
pub proof fn lemma_be_roundtrip(x: nat, n: nat)
    requires
        x < pow256(n),
    ensures
        be_value(be_bytes(x, n)) == x,
    decreases n,
{
    if n > 0 {
        let p = pow256((n - 1) as nat);
        assert(x / 256 < p) by (nonlinear_arith)
            requires
                x < 256 * p,
        ;
        lemma_be_roundtrip(x / 256, (n - 1) as nat);
        let b = be_bytes(x, n);
        assert(b.drop_last() =~= be_bytes(x / 256, (n - 1) as nat));
        assert((x / 256) * 256 + x % 256 == x) by (nonlinear_arith);
    }
}

proof fn lemma_xor_twice(x: u8, m: u8)
    ensures
        (x ^ m) ^ m == x,
{
    assert((x ^ m) ^ m == x) by (bit_vector);
}

/// Unmasking is its own inverse: masking a payload twice with one mask gives
/// the payload back.
pub proof fn lemma_unmask_involution(payload: Seq<u8>, mask: Seq<u8>)
    requires
        mask.len() == 4,
    ensures
        unmask_spec(unmask_spec(payload, mask), mask) == payload,
{
    assert forall|i: int| 0 <= i < payload.len() implies unmask_spec(
        unmask_spec(payload, mask),
        mask,
    )[i] == payload[i] by {
        lemma_xor_twice(payload[i], mask[i % 4]);
    }
    assert(unmask_spec(unmask_spec(payload, mask), mask) =~= payload);
}

/// The bytes a client sends for a payload: the server header for the same
/// opcode and length with the mask bit set, then the mask, then the payload
/// masked with it.
pub open spec fn masked_client_frame(opcode: u8, payload: Seq<u8>, mask: Seq<u8>) -> Seq<u8> {
    let h = encode_header_spec(opcode, payload.len());
    h.update(1, h[1] | 0x80u8) + mask + unmask_spec(payload, mask)
}

/// Frame roundtrip: a frame laid out with the server header (mask bit set),
/// a mask and the masked payload decodes to the opcode's low four bits and
/// the payload it was made from, and takes the whole frame.
pub proof fn lemma_frame_roundtrip(opcode: u8, payload: Seq<u8>, mask: Seq<u8>)
    requires
        mask.len() == 4,
        payload.len() <= PAYLOAD_LIMIT,
    ensures
        decode_client_frame_spec(masked_client_frame(opcode, payload, mask)) == Ok::<
            (u8, Seq<u8>, nat),
            FrameError,
        >((opcode & 0x0Fu8, payload, masked_client_frame(opcode, payload, mask).len())),
{
    let len = payload.len();
    let h = encode_header_spec(opcode, len);
    let s = masked_client_frame(opcode, payload, mask);
    let b0 = 0x80u8 | (opcode & 0x0Fu8);
    assert(b0 & 0x80u8 != 0 && b0 & 0x0Fu8 == opcode & 0x0Fu8) by (bit_vector)
        requires
            b0 == 0x80u8 | (opcode & 0x0Fu8),
    ;
    let code: u8 = if len <= 125 {
        len as u8
    } else if len <= 65535 {
        126u8
    } else {
        127u8
    };
    assert(code < 128);
    let b1 = code | 0x80u8;
    assert(b1 & 0x80u8 != 0 && b1 & 0x7Fu8 == code) by (bit_vector)
        requires
            b1 == code | 0x80u8,
            code < 128,
    ;
    let e: nat = if len <= 125 {
        0
    } else if len <= 65535 {
        2
    } else {
        8
    };
    lemma_be_bytes_len(len, 2);
    lemma_be_bytes_len(len, 8);
    assert(h.len() == 2 + e);
    assert(s[0] == b0);
    assert(s[1] == b1);
    assert(ext_len_spec(code) == e);
    let ext = s.subrange(2, 2 + e as int);
    if e == 2 {
        assert(ext =~= be_bytes(len, 2));
        reveal_with_fuel(pow256, 3);
        lemma_be_roundtrip(len, 2);
    } else if e == 8 {
        assert(ext =~= be_bytes(len, 8));
        reveal_with_fuel(pow256, 9);
        lemma_be_roundtrip(len, 8);
    }
    assert(payload_length_spec(code, ext) == Ok::<nat, FrameError>(len));
    let mask_at: int = 2 + e as int;
    assert(s.subrange(mask_at, mask_at + 4) =~= mask);
    assert(s.subrange(mask_at + 4, mask_at + 4 + len) =~= unmask_spec(payload, mask));
    lemma_unmask_involution(payload, mask);
}

/// The header of a server frame, byte by byte (RFC 6455 5.2): FIN set and
/// the opcode's low four bits in the first byte; then a payload length up
/// to 125 in the second byte itself, a length up to 65535 as 126 and two
/// big-endian bytes, and a longer one as 127 and eight big-endian bytes.
pub proof fn lemma_server_header_bytes(opcode: u8, len: nat)
    requires
        len < 0x1_0000_0000_0000_0000,
    ensures
        encode_header_spec(opcode, len)[0] == 0x80u8 | (opcode & 0x0Fu8),
        len <= 125 ==> encode_header_spec(opcode, len).len() == 2 && encode_header_spec(opcode, len)[1] == len,
        125 < len <= 65535 ==> {
            let h = encode_header_spec(opcode, len);
            &&& h.len() == 4
            &&& h[1] == 126
            &&& h[2] * 256 + h[3] == len
        },
        65535 < len ==> {
            let h = encode_header_spec(opcode, len);
            &&& h.len() == 10
            &&& h[1] == 127
            &&& be_value(h.subrange(2, 10)) == len
        },
{
    let h = encode_header_spec(opcode, len);
    if 125 < len <= 65535 {
        lemma_be_bytes_len(len, 2);
        reveal_with_fuel(pow256, 3);
        lemma_be_roundtrip(len, 2);
        let b = be_bytes(len, 2);
        assert(h.subrange(2, 4) =~= b);
        reveal_with_fuel(be_value, 3);
        assert(b.drop_last().drop_last() =~= Seq::<u8>::empty());
        assert(b.drop_last().last() == h[2]);
        assert(b.last() == h[3]);
    } else if 65535 < len {
        lemma_be_bytes_len(len, 8);
        reveal_with_fuel(pow256, 9);
        lemma_be_roundtrip(len, 8);
        assert(h.subrange(2, 10) =~= be_bytes(len, 8));
    }
}

/// Decode the two fixed header bytes of a client frame.
pub fn parse_frame_start(b0: u8, b1: u8) -> (r: Result<FrameStart, FrameError>)
    ensures
        r == frame_start_spec(b0, b1),
{
    let fin = (b0 & 0x80) != 0;
    let masked = (b1 & 0x80) != 0;
    if !fin || !masked {
        return Err(FrameError::Invalid);
    }
    Ok(FrameStart { opcode: b0 & 0x0F, length_code: b1 & 0x7F })
}

/// Number of extended-length bytes that follow a length code.
pub fn extended_length_len(length_code: u8) -> (n: usize)
    ensures
        n == ext_len_spec(length_code),
{
    if length_code == 126 {
        2
    } else if length_code == 127 {
        8
    } else {
        0
    }
}

/// Payload length from a length code and its extended bytes, refusing
/// lengths above [`PAYLOAD_LIMIT`].
pub fn payload_length(length_code: u8, ext: &[u8]) -> (r: Result<usize, FrameError>)
    requires
        ext.len() == ext_len_spec(length_code),
    ensures
        match r {
            Ok(n) => payload_length_spec(length_code, ext@) == Ok::<nat, FrameError>(n as nat),
            Err(e) => payload_length_spec(length_code, ext@) == Err::<nat, FrameError>(e),
        },
{
    if length_code == 126 {
        let n = (ext[0] as usize) * 256 + (ext[1] as usize);
        proof {
            reveal_with_fuel(be_value, 3);
            assert(ext@.drop_last().drop_last() =~= Seq::<u8>::empty());
            assert(ext@.drop_last().last() == ext[0]);
        }
        if n > PAYLOAD_LIMIT {
            return Err(FrameError::TooLarge);
        }
        Ok(n)
    } else if length_code == 127 {
        let mut parsed: u64 = 0;
        let mut i: usize = 0;
        while i < 8
            invariant
                ext.len() == 8,
                i <= 8,
                parsed as nat == be_value(ext@.subrange(0, i as int)),
            decreases 8 - i,
        {
            proof {
                lemma_be_value_bound(ext@.subrange(0, i as int));
                lemma_pow256_small(i as nat);
                assert(ext@.subrange(0, i + 1).drop_last() =~= ext@.subrange(0, i as int));
                assert(parsed * 256 + ext[i as int] < 0x1_0000_0000_0000_0000) by (nonlinear_arith)
                    requires
                        parsed < pow256(i as nat),
                        pow256(i as nat) <= 0x100_0000_0000_0000,
                        ext[i as int] < 256,
                ;
            }
            parsed = parsed * 256 + ext[i] as u64;
            i += 1;
        }
        proof {
            assert(ext@.subrange(0, 8) =~= ext@);
        }
        if parsed > usize::MAX as u64 {
            return Err(FrameError::TooLarge);
        }
        let n = parsed as usize;
        if n > PAYLOAD_LIMIT {
            return Err(FrameError::TooLarge);
        }
        Ok(n)
    } else {
        let n = length_code as usize;
        if n > PAYLOAD_LIMIT {
            return Err(FrameError::TooLarge);
        }
        Ok(n)
    }
}

proof fn lemma_pow256_small(i: nat)
    requires
        i < 8,
    ensures
        pow256(i) <= 0x100_0000_0000_0000,
    decreases i,
{
    reveal_with_fuel(pow256, 9);
    if i > 0 {
        lemma_pow256_small((i - 1) as nat);
    }
}

/// XOR each payload byte with the mask byte at its index modulo 4.
pub fn unmask_payload(payload: &[u8], mask: &[u8]) -> (r: Vec<u8>)
    requires
        mask.len() == 4,
    ensures
        r@ == unmask_spec(payload@, mask@),
{
    let mut out: Vec<u8> = Vec::new();
    let mut i: usize = 0;
    while i < payload.len()
        invariant
            mask.len() == 4,
            i <= payload.len(),
            out@ =~= unmask_spec(payload@, mask@).subrange(0, i as int),
        decreases payload.len() - i,
    {
        out.push(payload[i] ^ mask[i % 4]);
        i += 1;
    }
    out
}

/// Read one client frame from `buf`, taken as everything the stream will
/// yield. Returns the frame and the number of bytes it took.
pub fn decode_client_frame(buf: &[u8]) -> (r: Result<(WebSocketFrame, usize), FrameError>)
    ensures
        match r {
            Ok((frame, used)) => decode_client_frame_spec(buf@) == Ok::<
                (u8, Seq<u8>, nat),
                FrameError,
            >((frame.opcode, frame.payload@, used as nat)),
            Err(e) => decode_client_frame_spec(buf@) == Err::<(u8, Seq<u8>, nat), FrameError>(e),
        },
{
    if buf.len() < 2 {
        return Err(FrameError::ConnectionClosed);
    }
    let start = match parse_frame_start(buf[0], buf[1]) {
        Ok(s) => s,
        Err(e) => return Err(e),
    };
    let e = extended_length_len(start.length_code);
    if buf.len() - 2 < e {
        return Err(FrameError::Io);
    }
    let ext = slice_range(buf, 2, 2 + e);
    let len = match payload_length(start.length_code, ext) {
        Ok(n) => n,
        Err(err) => return Err(err),
    };
    let mask_at = 2 + e;
    if buf.len() - mask_at < 4 || buf.len() - mask_at - 4 < len {
        return Err(FrameError::Io);
    }
    let body_at = mask_at + 4;
    let mask = slice_range(buf, mask_at, body_at);
    let body = slice_range(buf, body_at, body_at + len);
    let payload = unmask_payload(body, mask);
    Ok((WebSocketFrame { opcode: start.opcode, payload }, body_at + len))
}

/// How many more bytes the client frame whose first bytes are `s` needs
/// (0 once it is complete), or why it cannot be read.
pub open spec fn frame_need_spec(s: Seq<u8>) -> Result<nat, FrameError> {
    if s.len() < 2 {
        Ok((2 - s.len()) as nat)
    } else {
        match frame_start_spec(s[0], s[1]) {
            Err(e) => Err(e),
            Ok(start) => {
                let e: int = ext_len_spec(start.length_code) as int;
                if s.len() < 2 + e {
                    Ok((2 + e - s.len()) as nat)
                } else {
                    match payload_length_spec(start.length_code, s.subrange(2, 2 + e)) {
                        Err(err) => Err(err),
                        Ok(len) => if s.len() < 6 + e + len {
                            Ok((6 + e + len - s.len()) as nat)
                        } else {
                            Ok(0)
                        },
                    }
                }
            },
        }
    }
}

/// Where reading one client frame stands.
pub enum FrameProgress {
    /// Read this many more bytes of the frame.
    NeedMore(usize),
    /// The frame is complete.
    Complete(WebSocketFrame),
    /// The frame cannot be read.
    Failed(FrameError),
}

/// The next step of reading a client frame, given the bytes of the frame
/// read so far: read more, the finished frame, or why it cannot be read.
pub fn frame_progress(buf: &[u8]) -> (r: FrameProgress)
    ensures
        match r {
            FrameProgress::NeedMore(n) => n > 0 && frame_need_spec(buf@) == Ok::<nat, FrameError>(
                n as nat,
            ),
            FrameProgress::Failed(e) => frame_need_spec(buf@) == Err::<nat, FrameError>(e),
            FrameProgress::Complete(frame) => {
                &&& frame_need_spec(buf@) == Ok::<nat, FrameError>(0)
                &&& decode_client_frame_spec(buf@) is Ok
                &&& decode_client_frame_spec(buf@)->Ok_0.0 == frame.opcode
                &&& decode_client_frame_spec(buf@)->Ok_0.1 == frame.payload@
            },
        },
{
    if buf.len() < 2 {
        return FrameProgress::NeedMore(2 - buf.len());
    }
    let start = match parse_frame_start(buf[0], buf[1]) {
        Ok(s) => s,
        Err(e) => return FrameProgress::Failed(e),
    };
    let e = extended_length_len(start.length_code);
    if buf.len() < 2 + e {
        return FrameProgress::NeedMore(2 + e - buf.len());
    }
    let len = match payload_length(start.length_code, slice_range(buf, 2, 2 + e)) {
        Ok(n) => n,
        Err(err) => return FrameProgress::Failed(err),
    };
    let total = 6 + e + len;
    if buf.len() < total {
        return FrameProgress::NeedMore(total - buf.len());
    }
    match decode_client_frame(buf) {
        Ok((frame, _)) => FrameProgress::Complete(frame),
        Err(err) => FrameProgress::Failed(err),
    }
}

/// The bytes `s[from..to]`.
pub fn slice_range(s: &[u8], from: usize, to: usize) -> (r: &[u8])
    requires
        from <= to <= s.len(),
    ensures
        r@ == s@.subrange(from as int, to as int),
{
    let (head, _) = s.split_at(to);
    let (_, mid) = head.split_at(from);
    mid
}

/// `n` low-order bytes of `x`, most significant first.
fn be_bytes_exec(x: u64, n: usize) -> (r: Vec<u8>)
    requires
        n <= 8,
    ensures
        r@ == be_bytes(x as nat, n as nat),
    decreases n,
{
    if n == 0 {
        Vec::new()
    } else {
        let mut v = be_bytes_exec(x / 256, n - 1);
        v.push((x % 256) as u8);
        v
    }
}

/// Header of a server-to-client (unmasked) frame with `len` payload bytes.
pub fn encode_frame_header(opcode: u8, len: usize) -> (r: Vec<u8>)
    ensures
        r@ == encode_header_spec(opcode, len as nat),
{
    let mut header: Vec<u8> = Vec::new();
    header.push(0x80 | (opcode & 0x0F));
    if len <= 125 {
        header.push(len as u8);
    } else if len <= 65535 {
        header.push(126);
        let b = be_bytes_exec(len as u64, 2);
        header.extend_from_slice(b.as_slice());
    } else {
        header.push(127);
        let b = be_bytes_exec(len as u64, 8);
        header.extend_from_slice(b.as_slice());
    }
    proof {
        assert(header@ =~= encode_header_spec(opcode, len as nat));
    }
    header
}

/// A complete server-to-client frame: header followed by the payload.
pub fn encode_server_frame(opcode: u8, payload: &[u8]) -> (r: Vec<u8>)
    ensures
        r@ == encode_header_spec(opcode, payload@.len()) + payload@,
{
    let mut frame = encode_frame_header(opcode, payload.len());
    frame.extend_from_slice(payload);
    frame
}

} // verus!
