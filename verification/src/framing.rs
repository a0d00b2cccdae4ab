//! Framing of serial messages: COBS encoding with a zero terminator, and
//! splitting a frame into USB packets.
use vstd::prelude::*;

verus! {

/// The COBS encoding of a message (without terminator).
pub uninterp spec fn cobs_encoding(message: Seq<u8>) -> Seq<u8>;

/// The message that a COBS-encoded frame decodes to, if it is well formed.
pub uninterp spec fn cobs_decoding(frame: Seq<u8>) -> Option<Seq<u8>>;

/// Largest COBS encoding of a message of `n` bytes: one overhead byte per
/// started run of 254 bytes, and at least one.
pub open spec fn max_encoding_length(n: int) -> int {
    if n == 0 { 1 } else { n + (n + 253) / 254 }
}

/// Largest COBS encoding of a message of `n` bytes.
pub fn max_encoded_len(n: usize) -> (m: usize)
    requires
        n + (n + 253) / 254 <= usize::MAX,
    ensures
        m == max_encoding_length(n as int),
{
    if n == 0 {
        1
    } else {
        n + (n + 253) / 254
    }
}

/// Calls `cobs::encode(source, dest)`: COBS-encodes `source` into the front of
/// `dest` and returns the encoded length. Trusted: the front of `dest` then holds
/// the encoding of `source`, which is at least one byte (the first code byte),
/// no longer than `max_encoding_length`, and holds no zero byte (COBS removes
/// the sentinel); `dest` keeps its length.
/// Nothing is claimed of the bytes of `dest` past the encoding.
#[verifier::external_body]
fn cobs_encode(source: &[u8], dest: &mut Vec<u8>) -> (n: usize)
    requires
        old(dest)@.len() >= max_encoding_length(source@.len() as int),
    ensures
        final(dest)@.len() == old(dest)@.len(),
        n == cobs_encoding(source@).len(),
        1 <= n <= max_encoding_length(source@.len() as int),
        final(dest)@.subrange(0, n as int) == cobs_encoding(source@),
        forall|i: int| 0 <= i < n ==> final(dest)@[i] != 0,
{
    cobs::encode(source, dest.as_mut_slice())
}

/// Calls `cobs::decode_vec(source)`, keeping the decoded message and dropping
/// the error. Trusted: the result is the decoding of the frame; a frame that is
/// the encoding of a message followed by the zero terminator decodes to that message.
#[verifier::external_body]
fn cobs_decode_vec(source: &[u8]) -> (r: Option<Vec<u8>>)
    ensures
        r is Some ==> cobs_decoding(source@) == Some(r.unwrap()@),
        r is None ==> cobs_decoding(source@).is_none(),
        forall|m: Seq<u8>| source@ == #[trigger] cobs_encoding(m).push(0) ==> r.is_some() && r.unwrap()@ == m,
{
    cobs::decode_vec(source).ok()
}

/// A message as sent on the wire: its COBS encoding followed by a zero terminator.
pub open spec fn framed(message: Seq<u8>) -> Seq<u8> {
    cobs_encoding(message).push(0)
}

/// Encodes a message for the wire: COBS, then the terminating zero.
pub fn encode_frame(message: &[u8]) -> (frame: Vec<u8>)
    requires
        message@.len() + (message@.len() + 253) / 254 + 1 <= usize::MAX,
    ensures
        frame@ == framed(message@),
        frame@.len() >= 2,
        frame@.last() == 0,
        forall|i: int| 0 <= i < frame@.len() - 1 ==> frame@[i] != 0,
{
    let cap = max_encoded_len(message.len()) + 1;
    let mut buf: Vec<u8> = Vec::new();
    let mut i: usize = 0;
    while i < cap
        invariant
            i <= cap,
            buf@.len() == i,
        decreases cap - i,
    {
        buf.push(0);
        i = i + 1;
    }
    let len = cobs_encode(message, &mut buf);
    buf.set(len, 0);
    buf.truncate(len + 1);
    assert(buf@ =~= framed(message@));
    buf
}

/// A frame that came off the wire, decoded; `None` when it is malformed.
pub fn decode_frame(frame: &[u8]) -> (message: Option<Vec<u8>>)
    ensures
        match message {
            Some(m) => cobs_decoding(frame@) == Some(m@),
            None => cobs_decoding(frame@).is_none(),
        },
        forall|m: Seq<u8>| frame@ == #[trigger] framed(m) ==> message.is_some() && message.unwrap()@ == m,
{
    cobs_decode_vec(frame)
}

/// What a packet that came in did for the message being received.
#[derive(Debug, PartialEq, Eq)]
pub enum Received {
    /// No frame ended in the packet: more bytes are needed.
    Hungry,
    /// A frame ended and decoded to this message; the rest of the packet was dropped.
    Frame(Vec<u8>),
    /// A frame ended and was malformed; the rest of the packet was dropped.
    Invalid,
}

/// The mathematical content of [`Received`].
pub enum ReceivedView {
    Hungry,
    Frame(Seq<u8>),
    Invalid,
}

/// The content of a [`Received`].
pub open spec fn received_view(r: Received) -> ReceivedView {
    match r {
        Received::Hungry => ReceivedView::Hungry,
        Received::Frame(m) => ReceivedView::Frame(m@),
        Received::Invalid => ReceivedView::Invalid,
    }
}

/// What a complete frame (its bytes with the terminator) decodes to.
pub open spec fn frame_outcome(frame: Seq<u8>) -> ReceivedView {
    match cobs_decoding(frame) {
        Some(m) => ReceivedView::Frame(m),
        None => ReceivedView::Invalid,
    }
}

/// Taking in `bytes` with `pending` bytes of a frame already held: zeros
/// between frames are skipped, other bytes are held; the first zero after
/// held bytes ends the frame, which is decoded, and the bytes after it are
/// dropped. Gives the bytes held afterwards and the outcome.
pub open spec fn receive_bytes(pending: Seq<u8>, bytes: Seq<u8>) -> (Seq<u8>, ReceivedView)
    decreases bytes.len(),
{
    if bytes.len() == 0 {
        (pending, ReceivedView::Hungry)
    } else if bytes[0] != 0 {
        receive_bytes(pending.push(bytes[0]), bytes.drop_first())
    } else if pending.len() == 0 {
        receive_bytes(pending, bytes.drop_first())
    } else {
        (Seq::empty(), frame_outcome(pending.push(0)))
    }
}

/// The receiving end of the serial link: frames arrive split over packets,
/// and each packet is taken in as it comes.
pub struct FrameReceiver {
    /// The bytes of the frame being received, without its terminator.
    pub pending: Vec<u8>,
}

impl FrameReceiver {
    /// A receiver between frames.
    pub fn new() -> (r: Self)
        ensures
            r.pending@ == Seq::<u8>::empty(),
    {
        FrameReceiver { pending: Vec::new() }
    }

    /// Takes in one packet; a frame that ends in it is decoded, and what
    /// follows its terminator in the packet is dropped.
    pub fn push(&mut self, packet: &[u8]) -> (r: Received)
        ensures
            (final(self).pending@, received_view(r)) == receive_bytes(old(self).pending@, packet@),
    {
        let mut i: usize = 0;
        assert(packet@.skip(0) =~= packet@);
        while i < packet.len()
            invariant
                i <= packet@.len(),
                receive_bytes(old(self).pending@, packet@) == receive_bytes(self.pending@, packet@.skip(i as int)),
            decreases packet@.len() - i,
        {
            let b = packet[i];
            assert(packet@.skip(i as int)[0] == b);
            assert(packet@.skip(i as int).drop_first() =~= packet@.skip(i + 1));
            if b != 0 {
                self.pending.push(b);
            } else if self.pending.len() > 0 {
                self.pending.push(0);
                let decoded = decode_frame(self.pending.as_slice());
                self.pending = Vec::new();
                return match decoded {
                    Some(m) => Received::Frame(m),
                    None => Received::Invalid,
                };
            }
            i = i + 1;
        }
        Received::Hungry
    }
}

/// USB packet size of the serial link, in bytes.
pub const PACKET_SIZE: usize = 64;

/// The packets a frame is sent in: consecutive chunks of at most `PACKET_SIZE` bytes,
/// then an empty packet that makes the host process the last chunk.
pub open spec fn packets_of(frame: Seq<u8>) -> Seq<Seq<u8>> {
    let n = (frame.len() + PACKET_SIZE - 1) / PACKET_SIZE as int;
    Seq::new(n as nat, |k: int| frame.subrange(k * PACKET_SIZE, vstd::math::min(frame.len() as int, k * PACKET_SIZE + PACKET_SIZE)))
        .push(Seq::empty())
}

/// Cuts a frame into the packets that carry it.
pub fn packetize(frame: &[u8]) -> (packets: Vec<Vec<u8>>)
    ensures
        packets@.len() == packets_of(frame@).len(),
        forall|k: int| 0 <= k < packets@.len() ==> #[trigger] packets@[k]@ == packets_of(frame@)[k],
{
    let ghost expected = packets_of(frame@);
    let ghost n = (frame@.len() + PACKET_SIZE - 1) / PACKET_SIZE as int;
    let mut packets: Vec<Vec<u8>> = Vec::new();
    let mut start: usize = 0;
    while start < frame.len()
        invariant
            n == (frame@.len() + PACKET_SIZE - 1) / PACKET_SIZE as int,
            expected == packets_of(frame@),
            start == vstd::math::min(frame@.len() as int, packets@.len() * PACKET_SIZE),
            packets@.len() <= n,
            start < frame@.len() ==> packets@.len() < n,
            start == frame@.len() ==> packets@.len() == n,
            forall|k: int| 0 <= k < packets@.len() ==> #[trigger] packets@[k]@ == expected[k],
        decreases frame@.len() - start,
    {
        let end = if frame.len() - start < PACKET_SIZE { frame.len() } else { start + PACKET_SIZE };
        let mut chunk: Vec<u8> = Vec::new();
        let mut j: usize = start;
        while j < end
            invariant
                start <= j <= end <= frame@.len(),
                chunk@ == frame@.subrange(start as int, j as int),
            decreases end - j,
        {
            chunk.push(frame[j]);
            j = j + 1;
            assert(chunk@ =~= frame@.subrange(start as int, j as int));
        }
        let ghost k = packets@.len() as int;
        assert(chunk@ == expected[k]);
        packets.push(chunk);
        start = end;
        proof {
            if start < frame@.len() {
                assert(packets@.len() < n) by (nonlinear_arith)
                    requires
                        start == vstd::math::min(frame@.len() as int, packets@.len() * PACKET_SIZE),
                        start < frame@.len(),
                        n == (frame@.len() + PACKET_SIZE - 1) / PACKET_SIZE as int,
                        PACKET_SIZE == 64;
            } else {
                assert(packets@.len() == n) by (nonlinear_arith)
                    requires
                        (packets@.len() - 1) * PACKET_SIZE < frame@.len() <= packets@.len() * PACKET_SIZE,
                        n == (frame@.len() + PACKET_SIZE - 1) / PACKET_SIZE as int,
                        PACKET_SIZE == 64;
            }
        }
    }
    packets.push(Vec::new());
    packets
}

/// The bytes of a list of packets, one after the other.
pub open spec fn joined(packets: Seq<Seq<u8>>) -> Seq<u8>
    decreases packets.len(),
{
    if packets.len() == 0 {
        Seq::empty()
    } else {
        joined(packets.drop_last()) + packets.last()
    }
}

proof fn lemma_joined_prefix(frame: Seq<u8>, k: int)
    requires
        0 <= k <= (frame.len() + PACKET_SIZE - 1) / PACKET_SIZE as int,
    ensures
        joined(packets_of(frame).take(k)) == frame.subrange(0, vstd::math::min(frame.len() as int, k * PACKET_SIZE)),
    decreases k,
{
    let n = (frame.len() + PACKET_SIZE - 1) / PACKET_SIZE as int;
    if k == 0 {
        assert(packets_of(frame).take(0) =~= Seq::<Seq<u8>>::empty());
        assert(frame.subrange(0, 0) =~= Seq::<u8>::empty());
    } else {
        lemma_joined_prefix(frame, k - 1);
        assert(packets_of(frame).take(k).drop_last() =~= packets_of(frame).take(k - 1));
        assert((k - 1) * PACKET_SIZE < frame.len()) by (nonlinear_arith)
            requires
                1 <= k <= n,
                n == (frame.len() + PACKET_SIZE - 1) / PACKET_SIZE as int,
                PACKET_SIZE == 64;
        assert(frame.subrange(0, (k - 1) * PACKET_SIZE) + frame.subrange(
            (k - 1) * PACKET_SIZE,
            vstd::math::min(frame.len() as int, k * PACKET_SIZE),
        ) =~= frame.subrange(0, vstd::math::min(frame.len() as int, k * PACKET_SIZE)));
    }
}

/// Joined back together, the packets of a frame give the frame; no packet is
/// longer than `PACKET_SIZE`, and the last one is empty.
pub proof fn lemma_packets_rejoin(frame: Seq<u8>)
    ensures
        joined(packets_of(frame)) == frame,
        packets_of(frame).last() == Seq::<u8>::empty(),
        forall|k: int| 0 <= k < packets_of(frame).len() ==> #[trigger] packets_of(frame)[k].len() <= PACKET_SIZE,
{
    let n = (frame.len() + PACKET_SIZE - 1) / PACKET_SIZE as int;
    lemma_joined_prefix(frame, n);
    assert(n * PACKET_SIZE >= frame.len()) by (nonlinear_arith)
        requires n == (frame.len() + PACKET_SIZE - 1) / PACKET_SIZE as int, PACKET_SIZE == 64;
    assert(packets_of(frame).drop_last() =~= packets_of(frame).take(n));
    assert(frame.subrange(0, frame.len() as int) =~= frame);
    assert(joined(packets_of(frame)) == joined(packets_of(frame).drop_last()) + Seq::<u8>::empty());
    assert(joined(packets_of(frame)) =~= frame);
}

/// Taking in bytes none of which is zero holds them all; what follows is
/// taken in as if they had been held before.
pub proof fn lemma_receive_plain_bytes(pending: Seq<u8>, a: Seq<u8>, b: Seq<u8>)
    requires
        forall|i: int| 0 <= i < a.len() ==> a[i] != 0,
    ensures
        receive_bytes(pending, a + b) == receive_bytes(pending + a, b),
    decreases a.len(),
{
    if a.len() == 0 {
        assert(a + b =~= b);
        assert(pending + a =~= pending);
    } else {
        assert((a + b)[0] == a[0]);
        assert((a + b).drop_first() =~= a.drop_first() + b);
        lemma_receive_plain_bytes(pending.push(a[0]), a.drop_first(), b);
        assert(pending.push(a[0]) + a.drop_first() =~= pending + a);
    }
}

/// Taking in packets one after the other: the bytes held at the end and the
/// outcome of each packet.
pub open spec fn receive_packets(pending: Seq<u8>, packets: Seq<Seq<u8>>) -> (Seq<u8>, Seq<ReceivedView>)
    decreases packets.len(),
{
    if packets.len() == 0 {
        (pending, Seq::empty())
    } else {
        let (held, outcomes) = receive_packets(pending, packets.drop_last());
        let (after, o) = receive_bytes(held, packets.last());
        (after, outcomes.push(o))
    }
}

/// A frame as `encode_frame` gives it (a terminating zero after at least one
/// byte, and no other zero), sent in the packets `packetize` cuts it into,
/// reaches a receiver between frames whole: the packet that carries its
/// terminator gives what the frame decodes to, every other packet leaves the
/// receiver hungry, and the receiver ends between frames again.
pub proof fn lemma_packets_deliver_frame(frame: Seq<u8>)
    requires
        frame.len() >= 2,
        frame.last() == 0,
        forall|i: int| 0 <= i < frame.len() - 1 ==> frame[i] != 0,
    ensures
        ({
            let (held, outcomes) = receive_packets(Seq::empty(), packets_of(frame));
            let last = (frame.len() + PACKET_SIZE - 1) / PACKET_SIZE as int - 1;
            &&& held == Seq::<u8>::empty()
            &&& outcomes.len() == packets_of(frame).len()
            &&& outcomes[last] == frame_outcome(frame)
            &&& forall|k: int| 0 <= k < outcomes.len() && k != last ==> outcomes[k] == ReceivedView::Hungry
        }),
{
    let n = (frame.len() + PACKET_SIZE - 1) / PACKET_SIZE as int;
    let ps = packets_of(frame);
    assert(1 <= n && (n - 1) * PACKET_SIZE < frame.len() <= n * PACKET_SIZE) by (nonlinear_arith)
        requires
            n == (frame.len() + PACKET_SIZE - 1) / PACKET_SIZE as int,
            frame.len() >= 2,
            PACKET_SIZE == 64;
    lemma_packets_hold_frame_prefix(frame, n - 1);
    let (held, outcomes) = receive_packets(Seq::empty(), ps.take(n - 1));
    // The packet that carries the terminator.
    let start = (n - 1) * PACKET_SIZE;
    let chunk = ps[n - 1];
    assert(chunk == frame.subrange(start, frame.len() as int));
    let body = frame.subrange(start, frame.len() - 1);
    assert(chunk =~= body + seq![0u8]);
    lemma_receive_plain_bytes(held, body, seq![0u8]);
    assert(held + body =~= frame.drop_last());
    assert(frame.drop_last().push(0) =~= frame);
    assert(receive_bytes(held + body, seq![0u8]) == (Seq::<u8>::empty(), frame_outcome(frame)));
    assert(ps.take(n).drop_last() =~= ps.take(n - 1));
    assert(ps.take(n).last() == chunk);
    let (held_n, outcomes_n) = receive_packets(Seq::empty(), ps.take(n));
    assert(held_n == Seq::<u8>::empty());
    assert(outcomes_n == outcomes.push(frame_outcome(frame)));
    // The empty packet that closes the frame.
    assert(ps.drop_last() =~= ps.take(n));
    assert(ps.last() == Seq::<u8>::empty());
    assert(receive_bytes(Seq::<u8>::empty(), Seq::<u8>::empty()) == (Seq::<u8>::empty(), ReceivedView::Hungry));
}

/// After the packets before the one that carries the terminator, a receiver
/// between frames holds the frame so far and was hungry after each packet.
proof fn lemma_packets_hold_frame_prefix(frame: Seq<u8>, k: int)
    requires
        frame.len() >= 2,
        frame.last() == 0,
        forall|i: int| 0 <= i < frame.len() - 1 ==> frame[i] != 0,
        0 <= k,
        k * PACKET_SIZE < frame.len(),
    ensures
        receive_packets(Seq::empty(), packets_of(frame).take(k)).0 == frame.subrange(0, k * PACKET_SIZE),
        receive_packets(Seq::empty(), packets_of(frame).take(k)).1.len() == k,
        forall|j: int| 0 <= j < k ==> #[trigger] receive_packets(Seq::empty(), packets_of(frame).take(k)).1[j]
            == ReceivedView::Hungry,
    decreases k,
{
    let ps = packets_of(frame);
    let n = (frame.len() + PACKET_SIZE - 1) / PACKET_SIZE as int;
    if k == 0 {
        assert(ps.take(0) =~= Seq::<Seq<u8>>::empty());
        assert(frame.subrange(0, 0) =~= Seq::<u8>::empty());
    } else {
        assert(k < n) by (nonlinear_arith)
            requires
                n == (frame.len() + PACKET_SIZE - 1) / PACKET_SIZE as int,
                k * PACKET_SIZE < frame.len(),
                PACKET_SIZE == 64;
        lemma_packets_hold_frame_prefix(frame, k - 1);
        let (held, outcomes) = receive_packets(Seq::empty(), ps.take(k - 1));
        let chunk = ps[k - 1];
        assert(chunk == frame.subrange((k - 1) * PACKET_SIZE, k * PACKET_SIZE));
        assert(ps.take(k).drop_last() =~= ps.take(k - 1));
        assert(ps.take(k).last() == chunk);
        assert forall|i: int| 0 <= i < chunk.len() implies chunk[i] != 0 by {
            assert(chunk[i] == frame[(k - 1) * PACKET_SIZE + i]);
        }
        lemma_receive_plain_bytes(held, chunk, Seq::empty());
        assert(chunk + Seq::<u8>::empty() =~= chunk);
        assert(held + chunk =~= frame.subrange(0, k * PACKET_SIZE));
        let (after, o) = receive_bytes(held + chunk, Seq::<u8>::empty());
        assert(o == ReceivedView::Hungry);
        let all = receive_packets(Seq::empty(), ps.take(k)).1;
        assert(all == outcomes.push(ReceivedView::Hungry));
        assert forall|j: int| 0 <= j < k implies #[trigger] all[j] == ReceivedView::Hungry by {
            if j < k - 1 {
                assert(all[j] == outcomes[j]);
            }
        }
    }
}

} // verus!
