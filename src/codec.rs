//! Outbound frame encoding with its one's-complement checksum.
use vstd::prelude::*;

verus! {

/// First byte of every frame the host sends.
pub const SYNC_REQUEST: u8 = 0x5A;

/// First byte of every frame the battery sends.
pub const SYNC_RESPONSE: u8 = 0xA5;

/// Size of a frame buffer; a response payload holds at most `FRAME_CAPACITY - 4` bytes.
pub const FRAME_CAPACITY: usize = 64;

/// Sum of the bytes of `s`.
pub open spec fn byte_sum(s: Seq<u8>) -> nat
    decreases s.len(),
{
    if s.len() == 0 {
        0
    } else {
        byte_sum(s.drop_last()) + s.last() as nat
    }
}

/// 0xFF minus the byte sum of `s` truncated to one byte.
pub open spec fn checksum_of(s: Seq<u8>) -> u8 {
    (255 - byte_sum(s) % 256) as u8
}

/// Everything of a response frame before its checksum.
pub open spec fn frame_head(code: u8, payload: Seq<u8>) -> Seq<u8> {
    seq![SYNC_RESPONSE, (payload.len() + 2) as u8, code] + payload
}

/// The response frame carrying `payload` under response code `code`.
pub open spec fn frame_spec(code: u8, payload: Seq<u8>) -> Seq<u8> {
    frame_head(code, payload).push(checksum_of(frame_head(code, payload)))
}

/// Checksum of a frame prefix: 0xFF minus the sum of its bytes, modulo 256.
pub fn checksum(packet: &[u8]) -> (r: u8)
    ensures
        r == checksum_of(packet@),
{
    let mut acc: u8 = 0;
    let mut i: usize = 0;
    while i < packet.len()
        invariant
            0 <= i <= packet@.len(),
            acc as nat == byte_sum(packet@.subrange(0, i as int)) % 256,
        decreases packet@.len() - i,
    {
        let b = packet[i];
        proof {
            let pre = packet@.subrange(0, i as int);
            let next = packet@.subrange(0, i + 1);
            assert(next.drop_last() =~= pre);
            assert(byte_sum(next) == byte_sum(pre) + b as nat);
            let s = byte_sum(pre);
            assert((s % 256 + b as nat) % 256 == (s + b as nat) % 256) by (nonlinear_arith);
        }
        acc = ((acc as u16 + b as u16) % 256) as u8;
        i = i + 1;
    }
    assert(packet@.subrange(0, packet@.len() as int) =~= packet@);
    0xFF - acc
}

/// Builds a response frame: sync byte, length (payload + 2), response code,
/// payload and checksum. Returns the buffer and the number of bytes used; the
/// rest of the buffer is zero.
pub fn build_packet(code: u8, packet: &[u8]) -> (r: ([u8; 64], usize))
    requires
        packet@.len() + 4 <= FRAME_CAPACITY,
    ensures
        r.1 == packet@.len() + 4,
        r.0@.subrange(0, r.1 as int) == frame_spec(code, packet@),
        forall|i: int| r.1 <= i < 64 ==> r.0@[i] == 0,
{
    let n = packet.len();
    let mut head: Vec<u8> = Vec::new();
    head.push(SYNC_RESPONSE);
    head.push((n + 2) as u8);
    head.push(code);
    let mut i: usize = 0;
    while i < n
        invariant
            0 <= i <= n,
            n == packet@.len(),
            n + 4 <= 64,
            head@ == seq![SYNC_RESPONSE, (n + 2) as u8, code] + packet@.subrange(0, i as int),
        decreases n - i,
    {
        head.push(packet[i]);
        i = i + 1;
        assert(head@ =~= seq![SYNC_RESPONSE, (n + 2) as u8, code] + packet@.subrange(0, i as int));
    }
    assert(packet@.subrange(0, n as int) =~= packet@);
    let c = checksum(head.as_slice());
    head.push(c);
    let mut full_packet = [0u8; 64];
    let mut k: usize = 0;
    while k < n + 4
        invariant
            0 <= k <= n + 4,
            n + 4 <= 64,
            head@.len() == n + 4,
            forall|j: int| 0 <= j < k ==> full_packet@[j] == head@[j],
            forall|j: int| k <= j < 64 ==> full_packet@[j] == 0,
        decreases n + 4 - k,
    {
        full_packet[k] = head[k];
        k = k + 1;
    }
    assert(full_packet@.subrange(0, n + 4) =~= head@);
    (full_packet, n + 4)
}

/// Every built frame ends in its checksum: 0xFF minus the sum, modulo 256,
/// of all bytes before it; its length byte counts the payload plus two.
pub proof fn lemma_frame_checksum(code: u8, payload: Seq<u8>)
    requires
        payload.len() + 4 <= FRAME_CAPACITY,
    ensures
        ({
            let f = frame_spec(code, payload);
            &&& f.len() == payload.len() + 4
            &&& f[0] == SYNC_RESPONSE
            &&& f[1] as int == payload.len() + 2
            &&& f[2] == code
            &&& f.subrange(3, f.len() - 1) == payload
            &&& f.last() as int == 255 - byte_sum(f.drop_last()) % 256
        }),
{
    let f = frame_spec(code, payload);
    assert(f.drop_last() =~= frame_head(code, payload));
    assert(f.subrange(3, f.len() - 1) =~= payload);
}

} // verus!
