//! Framing of the messages on the serial link to the host: a message is its
//! encoded payload preceded by the payload's length as a little-endian
//! `u16`. Bytes arrive in packets of any size; the reader collects them and
//! hands out each payload once its last byte is in.
use vstd::prelude::*;

verus! {

/// The bytes of the length header.
pub const HEADER_LEN: usize = 2;

/// The longest payload a two-byte header can announce.
pub const MAX_PAYLOAD: usize = 0xFFFF;

/// The payload length that the header bytes `lo`, `hi` announce.
pub open spec fn announced_len(lo: u8, hi: u8) -> int {
    lo + 256 * hi
}

/// The frame of `payload`: its length, low byte first, then the payload.
pub open spec fn spec_frame(payload: Seq<u8>) -> Seq<u8> {
    seq![(payload.len() % 256) as u8, (payload.len() / 256) as u8] + payload
}

/// The first complete frame at the start of `buffer`, as its payload and the
/// bytes after it; `None` while the header or part of the payload is missing.
pub open spec fn first_frame(buffer: Seq<u8>) -> Option<(Seq<u8>, Seq<u8>)> {
    if buffer.len() >= HEADER_LEN && buffer.len() >= HEADER_LEN + announced_len(buffer[0], buffer[1]) {
        let end = HEADER_LEN + announced_len(buffer[0], buffer[1]);
        Some((buffer.subrange(HEADER_LEN as int, end), buffer.subrange(end, buffer.len() as int)))
    } else {
        None
    }
}

/// Frames `payload` for the link; `None` when it is longer than a header can
/// announce.
pub fn encode_frame(payload: &[u8]) -> (r: Option<Vec<u8>>)
    ensures
        r is Some <==> payload@.len() <= MAX_PAYLOAD,
        r matches Some(frame) ==> frame@ == spec_frame(payload@),
{
    let n = payload.len();
    if n > MAX_PAYLOAD {
        return None;
    }
    let mut frame: Vec<u8> = Vec::new();
    frame.push((n % 256) as u8);
    frame.push((n / 256) as u8);
    let mut i: usize = 0;
    while i < n
        invariant
            n == payload@.len(),
            n <= MAX_PAYLOAD,
            i <= n,
            frame@ == seq![(n % 256) as u8, (n / 256) as u8] + payload@.take(i as int),
        decreases n - i,
    {
        frame.push(payload[i]);
        i = i + 1;
        assert(frame@ =~= seq![(n % 256) as u8, (n / 256) as u8] + payload@.take(i as int));
    }
    assert(payload@.take(n as int) =~= payload@);
    Some(frame)
}

/// Collects the bytes received from the link and cuts them into frames.
pub struct FrameReader {
    pending: Vec<u8>,
}

impl View for FrameReader {
    type V = Seq<u8>;

    /// The bytes received and not yet handed out.
    closed spec fn view(&self) -> Seq<u8> {
        self.pending@
    }
}

/// The bytes `s[from..to]` copied into a new vector.
fn copy_range(s: &Vec<u8>, from: usize, to: usize) -> (r: Vec<u8>)
    requires
        from <= to <= s@.len(),
    ensures
        r@ == s@.subrange(from as int, to as int),
{
    let mut out: Vec<u8> = Vec::new();
    let mut i: usize = from;
    while i < to
        invariant
            from <= i <= to,
            to <= s@.len(),
            out@ == s@.subrange(from as int, i as int),
        decreases to - i,
    {
        out.push(s[i]);
        i = i + 1;
        assert(out@ =~= s@.subrange(from as int, i as int));
    }
    out
}

impl FrameReader {
    /// A reader that holds no bytes.
    pub fn new() -> (r: Self)
        ensures
            r@ == Seq::<u8>::empty(),
    {
        FrameReader { pending: Vec::new() }
    }

    /// Takes in the bytes of one received packet.
    pub fn feed(&mut self, bytes: &[u8])
        ensures
            final(self)@ == old(self)@ + bytes@,
    {
        let mut i: usize = 0;
        while i < bytes.len()
            invariant
                i <= bytes@.len(),
                self@ == old(self)@ + bytes@.take(i as int),
            decreases bytes@.len() - i,
        {
            self.pending.push(bytes[i]);
            i = i + 1;
            assert(self@ =~= old(self)@ + bytes@.take(i as int));
        }
        assert(bytes@.take(bytes@.len() as int) =~= bytes@);
    }

    /// Hands out the payload of the first frame once all of it has arrived,
    /// keeping the bytes after it; `None`, with nothing taken, before that.
    pub fn next_frame(&mut self) -> (r: Option<Vec<u8>>)
        ensures
            match first_frame(old(self)@) {
                Some((payload, rest)) => r matches Some(p) && p@ == payload && final(self)@ == rest,
                None => r is None && final(self)@ == old(self)@,
            },
    {
        let len = self.pending.len();
        if len < HEADER_LEN {
            return None;
        }
        let n = self.pending[0] as usize + 256 * (self.pending[1] as usize);
        if len - HEADER_LEN < n {
            return None;
        }
        let end = HEADER_LEN + n;
        let payload = copy_range(&self.pending, HEADER_LEN, end);
        let rest = copy_range(&self.pending, end, len);
        self.pending = rest;
        Some(payload)
    }
}

/// What the reader hands out is what was framed: a frame followed by any
/// further bytes gives back its payload and keeps the bytes after it.
pub proof fn frame_round_trip(payload: Seq<u8>, rest: Seq<u8>)
    requires
        payload.len() <= MAX_PAYLOAD,
    ensures
        first_frame(spec_frame(payload) + rest) == Some((payload, rest)),
{
    let f = spec_frame(payload) + rest;
    let n = payload.len() as int;
    assert(announced_len(f[0], f[1]) == n) by {
        assert(f[0] == (n % 256) as u8);
        assert(f[1] == (n / 256) as u8);
    }
    assert(f.subrange(2, 2 + n) =~= payload);
    assert(f.subrange(2 + n, f.len() as int) =~= rest);
}

/// A buffer that holds less than a whole frame gives nothing.
pub proof fn partial_frame_waits(payload: Seq<u8>, k: int)
    requires
        payload.len() <= MAX_PAYLOAD,
        0 <= k < spec_frame(payload).len(),
    ensures
        first_frame(spec_frame(payload).take(k)) is None,
{
    let f = spec_frame(payload);
    let t = f.take(k);
    if t.len() >= HEADER_LEN {
        assert(t[0] == f[0] && t[1] == f[1]);
        assert(announced_len(f[0], f[1]) == payload.len());
    }
}

} // verus!
