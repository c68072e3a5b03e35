//! Per-connection framing: a 4-byte big-endian length, then the JSON
//! payload. A frame may carry at most 16 MiB so that a garbage length
//! never makes a reader allocate gigabytes.

use vstd::prelude::*;

verus! {

/// Largest payload a frame may carry.
pub const MAX_FRAME_BYTES: usize = 16777216;

/// Why a frame could not be written or read.
#[derive(Debug, Clone, Copy, PartialEq, Eq, Structural)]
pub enum FrameError {
    /// The payload (to write) or announced length (read) exceeds
    /// [`MAX_FRAME_BYTES`].
    TooLarge { len: usize },
    /// The stream ended after `got` bytes of the 4-byte length header.
    TruncatedHeader { got: usize },
}

/// `n` as four big-endian bytes.
pub open spec fn be32(n: nat) -> Seq<u8> {
    seq![
        ((n / 0x100_0000) % 256) as u8,
        ((n / 0x1_0000) % 256) as u8,
        ((n / 0x100) % 256) as u8,
        (n % 256) as u8,
    ]
}

/// The number that four big-endian bytes denote.
pub open spec fn be32_value(b: Seq<u8>) -> nat {
    (b[0] as nat) * 0x100_0000 + (b[1] as nat) * 0x1_0000 + (b[2] as nat) * 0x100 + (b[3] as nat)
}

/// The bytes of the frame that carries `payload`.
pub open spec fn frame_bytes(payload: Seq<u8>) -> Seq<u8> {
    be32(payload.len()) + payload
}

/// What a reader makes of the header bytes it got before the stream ended
/// (or of all four): nothing at all is a clean end of stream, a partial
/// header is an error, a full one gives the payload length unless it is
/// over the limit.
pub open spec fn header_outcome(got: Seq<u8>) -> Result<Option<nat>, FrameError> {
    if got.len() == 0 {
        Ok(None)
    } else if got.len() < 4 {
        Err(FrameError::TruncatedHeader { got: got.len() as usize })
    } else if be32_value(got) > MAX_FRAME_BYTES {
        Err(FrameError::TooLarge { len: be32_value(got) as usize })
    } else {
        Ok(Some(be32_value(got)))
    }
}

/// The frame that carries `payload`, or `TooLarge` when the payload is
/// over the limit.
pub fn encode_frame(payload: &[u8]) -> (r: Result<Vec<u8>, FrameError>)
    ensures
        payload@.len() <= MAX_FRAME_BYTES ==> r is Ok && r->Ok_0@ == frame_bytes(payload@),
        payload@.len() > MAX_FRAME_BYTES ==> r == Err::<Vec<u8>, FrameError>(
            FrameError::TooLarge { len: payload@.len() as usize },
        ),
{
    let len = payload.len();
    if len > MAX_FRAME_BYTES {
        return Err(FrameError::TooLarge { len });
    }
    let n = len as u32;
    let mut out: Vec<u8> = Vec::new();
    out.push(((n / 0x100_0000) % 256) as u8);
    out.push(((n / 0x1_0000) % 256) as u8);
    out.push(((n / 0x100) % 256) as u8);
    out.push((n % 256) as u8);
    assert(out@ =~= be32(len as nat));
    let mut i: usize = 0;
    while i < len
        invariant
            len == payload@.len(),
            i <= len,
            out@ == be32(len as nat) + payload@.subrange(0, i as int),
        decreases len - i,
    {
        out.push(payload[i]);
        i = i + 1;
        assert(out@ =~= be32(len as nat) + payload@.subrange(0, i as int));
    }
    assert(payload@.subrange(0, len as int) =~= payload@);
    Ok(out)
}

/// Decodes the header bytes read before the stream ended, or all four.
pub fn decode_header(got: &[u8]) -> (r: Result<Option<usize>, FrameError>)
    requires
        got@.len() <= 4,
    ensures
        match header_outcome(got@) {
            Ok(None) => r == Ok::<Option<usize>, FrameError>(None),
            Ok(Some(n)) => r == Ok::<Option<usize>, FrameError>(Some(n as usize)),
            Err(e) => r == Err::<Option<usize>, FrameError>(e),
        },
{
    let k = got.len();
    if k == 0 {
        return Ok(None);
    }
    if k < 4 {
        return Err(FrameError::TruncatedHeader { got: k });
    }
    let v: u32 = (got[0] as u32) * 0x100_0000 + (got[1] as u32) * 0x1_0000 + (got[2] as u32) * 0x100
        + (got[3] as u32);
    if v as usize > MAX_FRAME_BYTES {
        return Err(FrameError::TooLarge { len: v as usize });
    }
    Ok(Some(v as usize))
}

/// A reader that gets the bytes a writer framed finds the payload's length
/// in the header and the payload right after it.
pub proof fn lemma_frame_roundtrip(payload: Seq<u8>)
    requires
        payload.len() <= MAX_FRAME_BYTES,
    ensures
        header_outcome(frame_bytes(payload).subrange(0, 4)) == Ok::<Option<nat>, FrameError>(
            Some(payload.len()),
        ),
        frame_bytes(payload).subrange(4, 4 + payload.len() as int) == payload,
{
    let n = payload.len();
    let h = frame_bytes(payload).subrange(0, 4);
    assert(h =~= be32(n));
    assert(be32_value(be32(n)) == n) by (nonlinear_arith)
        requires
            n <= 16777216,
            be32(n) == seq![
                ((n / 0x100_0000) % 256) as u8,
                ((n / 0x1_0000) % 256) as u8,
                ((n / 0x100) % 256) as u8,
                (n % 256) as u8,
            ],
    {
        let b = be32(n);
        assert(b[0] as nat == (n / 0x100_0000) % 256);
        assert(b[1] as nat == (n / 0x1_0000) % 256);
        assert(b[2] as nat == (n / 0x100) % 256);
        assert(b[3] as nat == n % 256);
    }
    assert(frame_bytes(payload).subrange(4, 4 + n as int) =~= payload);
}

} // verus!
