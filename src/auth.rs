//! The challenge-response transforms: the two-phase handshake keyed by
//! hardware revision, and the independent Go handshake.
use vstd::prelude::*;
use crate::block_cipher::{aes128_decrypt, aes128_encrypt, decrypt_pair, encrypt_block, xor_block};
use crate::tables::{
    is_revision, key_of, lookup_key, lookup_secret1, lookup_secret2, secret1_of,
    secret2_of, GO_KEY1, GO_KEY2, GO_SECRET,
};

verus! {

/// Why a request could not be served.
#[derive(Clone, Copy, Debug, PartialEq, Eq, Structural)]
pub enum ErrorKind {
    /// The revision byte has no row in the tables.
    UnknownRevision,
    /// A byte of a frame did not arrive in time.
    TimedOut,
    /// The byte transport reported a failure.
    TransportError,
    /// The Go request did not decrypt to the Go secret.
    HandshakeRejected,
}

/// The nibble-interleave permutation: output byte `i` is input byte `NEW_MAP[i]`.
pub const NEW_MAP: [usize; 16] = [
    0x00, 0x04, 0x08, 0x0C, 0x01, 0x05, 0x09, 0x0D, 0x02, 0x06, 0x0A, 0x0E, 0x03, 0x07, 0x0B, 0x0F,
];

/// `block` reordered by the nibble-interleave permutation.
pub open spec fn interleave(block: Seq<u8>) -> Seq<u8> {
    Seq::new(16, |i: int| block[NEW_MAP@[i] as int])
}

/// Phase-1 input block: the revision's secret, then the first eight challenge bytes.
pub open spec fn mix1(secret: Seq<u8>, challenge: Seq<u8>) -> Seq<u8> {
    secret.subrange(0, 8) + challenge.subrange(0, 8)
}

/// Phase-2 input block: the retained value in positions 0, 4, 8, 12, 1, 5, 9, 13
/// and the phase-2 secret in positions 2, 6, 10, 14, 3, 7, 11, 15.
pub open spec fn mix2(ch: Seq<u8>, s: Seq<u8>) -> Seq<u8> {
    seq![
        ch[0], ch[4], s[0], s[4], ch[1], ch[5], s[1], s[5],
        ch[2], ch[6], s[2], s[6], ch[3], ch[7], s[3], s[7],
    ]
}

/// The phase-1 cipher block `ch1a`: the mixed block encrypted under `key`.
pub open spec fn auth1_first(key: Seq<u8>, secret: Seq<u8>, challenge: Seq<u8>) -> Seq<u8> {
    aes128_encrypt(key, mix1(secret, challenge))
}

/// Phase-1 response payload: eight bytes of each of `ch1a` and `ch1b`.
pub open spec fn auth1_payload(ch1a: Seq<u8>, ch1b: Seq<u8>) -> Seq<u8> {
    ch1a.subrange(0, 8) + ch1b.subrange(0, 8)
}

/// Phase-1 result of revision `v` on `challenge`: the response payload and the
/// value `ch1b` that phase 2 needs; `None` for an unknown revision.
pub open spec fn auth1_spec(v: u8, challenge: Seq<u8>) -> Option<(Seq<u8>, Seq<u8>)> {
    match (secret1_of(v), key_of(v)) {
        (Some(s), Some(k)) => {
            let ch1a = auth1_first(k, s, challenge);
            let ch1b = interleave(aes128_encrypt(k, ch1a));
            Some((auth1_payload(ch1a, ch1b), ch1b))
        },
        _ => None,
    }
}

/// Phase-2 response payload of revision `v` from the retained `ch1b`;
/// `None` for an unknown revision.
pub open spec fn auth2_spec(v: u8, ch1b: Seq<u8>) -> Option<Seq<u8>> {
    match (secret2_of(v), key_of(v)) {
        (Some(s), Some(k)) => Some(
            aes128_encrypt(k, aes128_encrypt(k, interleave(mix2(ch1b, s)))),
        ),
        _ => None,
    }
}

/// Whether the second block of a Go request decrypts (in CBC mode under Go
/// key 1, zero IV) to the Go secret.
pub open spec fn go_accepts(request: Seq<u8>) -> bool {
    xor_block(aes128_decrypt(GO_KEY1@, request.subrange(24, 40)), request.subrange(8, 24))
        == GO_SECRET@
}

/// The seed of the Go response: the two halves of the first decrypted block, swapped.
pub open spec fn go_seed_spec(first: Seq<u8>) -> Seq<u8> {
    first.subrange(8, 16) + first.subrange(0, 8)
}

/// The fixed header of a Go response.
pub open spec fn go_header() -> Seq<u8> {
    seq![0x20u8, 0x01, 0x00, 0x00, 0x82, 0x82, 0x82, 0x82]
}

/// Go response payload computed from a seed block.
pub open spec fn go_payload(seed: Seq<u8>) -> Seq<u8> {
    let zero = Seq::new(16, |i: int| 0u8);
    go_header() + aes128_decrypt(GO_KEY2@, seed) + xor_block(aes128_decrypt(GO_KEY2@, zero), seed)
}

/// Go handshake on `request` (the frame body after its opcode): the 40-byte
/// response payload, or `None` when the request is rejected.
pub open spec fn authgo_spec(request: Seq<u8>) -> Option<Seq<u8>> {
    if go_accepts(request) {
        Some(go_payload(go_seed_spec(aes128_decrypt(GO_KEY1@, request.subrange(8, 24)))))
    } else {
        None
    }
}

proof fn lemma_same_row(v: u8)
    ensures
        secret1_of(v) is Some <==> key_of(v) is Some,
        secret2_of(v) is Some <==> key_of(v) is Some,
{
}

/// Phase 1 has no hidden input: for one revision, two challenges that agree
/// on their first eight bytes give the same response payload and `ch1b`.
pub proof fn lemma_auth1_deterministic(version: u8, c1: Seq<u8>, c2: Seq<u8>)
    requires
        c1.len() >= 8,
        c2.len() >= 8,
        c1.subrange(0, 8) == c2.subrange(0, 8),
    ensures
        auth1_spec(version, c1) == auth1_spec(version, c2),
{
    assert(c1.subrange(0, 8) =~= c2.subrange(0, 8));
}

/// Copies `src[start..start + 16]` into a block.
fn block_at(src: &[u8], start: usize) -> (r: [u8; 16])
    requires
        start + 16 <= src@.len(),
    ensures
        r@ == src@.subrange(start as int, start + 16),
{
    let mut r = [0u8; 16];
    let mut i: usize = 0;
    while i < 16
        invariant
            0 <= i <= 16,
            start + 16 <= src.len(),
            forall|j: int| 0 <= j < i ==> r@[j] == src@[start + j],
        decreases 16 - i,
    {
        r[i] = src[start + i];
        i = i + 1;
    }
    assert(r@ =~= src@.subrange(start as int, start + 16));
    r
}

/// Applies the nibble-interleave permutation to `block`.
pub fn matrix_swap(block: &[u8; 16]) -> (r: [u8; 16])
    ensures
        r@ == interleave(block@),
{
    let mut r = [0u8; 16];
    let mut i: usize = 0;
    while i < 16
        invariant
            0 <= i <= 16,
            forall|j: int| 0 <= j < i ==> r@[j] == block@[NEW_MAP@[j] as int],
        decreases 16 - i,
    {
        assert(NEW_MAP@[i as int] < 16);
        r[i] = block[NEW_MAP[i]];
        i = i + 1;
    }
    assert(r@ =~= interleave(block@));
    r
}

/// Builds the phase-1 input block from the revision's secret and the challenge.
pub fn mix_challenge1(version: u8, challenge: &[u8]) -> (r: Result<[u8; 16], ErrorKind>)
    requires
        is_revision(version) ==> challenge@.len() >= 8,
    ensures
        r matches Ok(d) ==> secret1_of(version) matches Some(s) && d@ == mix1(s, challenge@),
        r matches Err(e) ==> e == ErrorKind::UnknownRevision,
        r is Err <==> !is_revision(version),
{
    proof { crate::tables::lemma_tables_cover_revisions(version); }
    let secret1 = match lookup_secret1(version) {
        Some(e) => e.secret,
        None => { return Err(ErrorKind::UnknownRevision); },
    };
    let mut data = [0u8; 16];
    let mut i: usize = 0;
    while i < 8
        invariant
            0 <= i <= 8,
            challenge@.len() >= 8,
            forall|j: int| 0 <= j < i ==> data@[j] == secret1@[j] && data@[8 + j] == challenge@[j],
        decreases 8 - i,
    {
        data[i] = secret1[i];
        data[8 + i] = challenge[i];
        i = i + 1;
    }
    assert(data@ =~= mix1(secret1@, challenge@));
    Ok(data)
}

/// Builds the phase-2 input block from the retained `ch1b` and the revision's secret.
pub fn mix_challenge2(version: u8, challenge: &[u8]) -> (r: Result<[u8; 16], ErrorKind>)
    requires
        challenge@.len() >= 8,
    ensures
        r matches Ok(d) ==> secret2_of(version) matches Some(s) && d@ == mix2(challenge@, s),
        r matches Err(e) ==> e == ErrorKind::UnknownRevision,
        r is Err <==> !is_revision(version),
{
    proof { crate::tables::lemma_tables_cover_revisions(version); }
    let s = match lookup_secret2(version) {
        Some(e) => e.secret,
        None => { return Err(ErrorKind::UnknownRevision); },
    };
    let data: [u8; 16] = [
        challenge[0], challenge[4], s[0], s[4], challenge[1], challenge[5], s[1], s[5],
        challenge[2], challenge[6], s[2], s[6], challenge[3], challenge[7], s[3], s[7],
    ];
    assert(data@ =~= mix2(challenge@, s@));
    Ok(data)
}

/// Encrypts one block under the key of `version`.
pub fn encrypt_bytes(plain: &[u8; 16], version: u8) -> (r: Result<[u8; 16], ErrorKind>)
    ensures
        r matches Ok(c) ==> key_of(version) matches Some(k) && c@ == aes128_encrypt(k, plain@),
        r matches Err(e) ==> e == ErrorKind::UnknownRevision,
        r is Err <==> key_of(version) is None,
{
    match lookup_key(version) {
        Some(e) => Ok(encrypt_block(&e.key, plain)),
        None => Err(ErrorKind::UnknownRevision),
    }
}

/// Phase-1 response payload from the two phase-1 blocks.
pub fn auth1_packet(ch1a: &[u8; 16], ch1b: &[u8; 16]) -> (r: [u8; 16])
    ensures
        r@ == auth1_payload(ch1a@, ch1b@),
{
    let mut r = [0u8; 16];
    let mut i: usize = 0;
    while i < 8
        invariant
            0 <= i <= 8,
            forall|j: int| 0 <= j < i ==> r@[j] == ch1a@[j] && r@[8 + j] == ch1b@[j],
        decreases 8 - i,
    {
        r[i] = ch1a[i];
        r[8 + i] = ch1b[i];
        i = i + 1;
    }
    assert(r@ =~= auth1_payload(ch1a@, ch1b@));
    r
}

/// Phase 1 of the handshake ("Auth1"): returns the 16-byte response payload
/// and the value `ch1b` to retain for phase 2.
pub fn cmdauth1(version: u8, challenge: &[u8]) -> (r: Result<([u8; 16], [u8; 16]), ErrorKind>)
    requires
        is_revision(version) ==> challenge@.len() >= 8,
    ensures
        r matches Ok((p, b)) ==> auth1_spec(version, challenge@) == Some((p@, b@)),
        r matches Err(e) ==> e == ErrorKind::UnknownRevision,
        r is Err <==> !is_revision(version),
{
    proof { lemma_same_row(version); }
    let data = mix_challenge1(version, challenge)?;
    let ch1a = match encrypt_bytes(&data, version) {
        Ok(c) => c,
        Err(e) => { return Err(e); },
    };
    let temp = match encrypt_bytes(&ch1a, version) {
        Ok(c) => c,
        Err(e) => { return Err(e); },
    };
    let ch1b = matrix_swap(&temp);
    Ok((auth1_packet(&ch1a, &ch1b), ch1b))
}

/// Phase 2 of the handshake ("Auth2"): the 16-byte response payload computed
/// from the revision retained by phase 1 and the first eight bytes of `ch1b`.
/// The host's challenge bytes take no part in it.
pub fn cmdauth2(challenge_version: u8, _challenge: &[u8], ch1b: &[u8]) -> (r: Result<[u8; 16], ErrorKind>)
    requires
        ch1b@.len() >= 8,
    ensures
        r matches Ok(p) ==> auth2_spec(challenge_version, ch1b@) == Some(p@),
        r matches Err(e) ==> e == ErrorKind::UnknownRevision,
        r is Err <==> !is_revision(challenge_version),
{
    proof { lemma_same_row(challenge_version); }
    let temp = mix_challenge2(challenge_version, ch1b)?;
    let data2 = matrix_swap(&temp);
    let challenge2 = match encrypt_bytes(&data2, challenge_version) {
        Ok(c) => c,
        Err(e) => { return Err(e); },
    };
    encrypt_bytes(&challenge2, challenge_version)
}

/// Checks the two decrypted Go request blocks and builds the response seed:
/// the halves of `first` swapped, when `second` is the Go secret.
pub fn go_seed(first: &[u8; 16], second: &[u8; 16]) -> (r: Result<[u8; 16], ErrorKind>)
    ensures
        r matches Ok(s) ==> second@ == GO_SECRET@ && s@ == go_seed_spec(first@),
        r matches Err(e) ==> e == ErrorKind::HandshakeRejected,
        r is Ok <==> second@ == GO_SECRET@,
{
    let mut i: usize = 0;
    while i < 16
        invariant
            0 <= i <= 16,
            forall|j: int| 0 <= j < i ==> second@[j] == GO_SECRET@[j],
        decreases 16 - i,
    {
        if second[i] != GO_SECRET[i] {
            return Err(ErrorKind::HandshakeRejected);
        }
        i = i + 1;
    }
    assert(second@ =~= GO_SECRET@);
    let mut seed = [0u8; 16];
    let mut k: usize = 0;
    while k < 8
        invariant
            0 <= k <= 8,
            forall|j: int| 0 <= j < k ==> seed@[j] == #[trigger] first@[8 + j],
            forall|j: int| 0 <= j < k ==> seed@[8 + j] == #[trigger] first@[j],
        decreases 8 - k,
    {
        seed[k] = first[8 + k];
        seed[8 + k] = first[k];
        k = k + 1;
    }
    assert forall|j: int| 0 <= j < 16 implies seed@[j] == go_seed_spec(first@)[j] by {
        if j < 8 {
            assert(seed@[j] == first@[8 + j]);
        } else {
            assert(seed@[8 + (j - 8)] == first@[j - 8]);
        }
    }
    assert(seed@ =~= go_seed_spec(first@));
    Ok(seed)
}

/// Go response payload: the fixed header, then the two response blocks.
pub fn go_packet(block0: &[u8; 16], block1: &[u8; 16]) -> (r: [u8; 40])
    ensures
        r@ == go_header() + block0@ + block1@,
{
    let mut r = [0u8; 40];
    r[0] = 0x20;
    r[1] = 0x01;
    r[4] = 0x82;
    r[5] = 0x82;
    r[6] = 0x82;
    r[7] = 0x82;
    let mut i: usize = 0;
    while i < 16
        invariant
            0 <= i <= 16,
            r@[0] == 0x20 && r@[1] == 0x01 && r@[2] == 0 && r@[3] == 0,
            r@[4] == 0x82 && r@[5] == 0x82 && r@[6] == 0x82 && r@[7] == 0x82,
            forall|j: int| 0 <= j < i ==> r@[8 + j] == block0@[j] && r@[24 + j] == block1@[j],
        decreases 16 - i,
    {
        r[8 + i] = block0[i];
        r[24 + i] = block1[i];
        i = i + 1;
    }
    assert(r@ =~= go_header() + block0@ + block1@);
    r
}

/// The Go handshake ("AuthGo") on `screq`, the frame body after its opcode:
/// bytes 8..40 are two cipher blocks that must open under Go key 1 to a
/// second block equal to the Go secret; the response payload is 40 bytes.
pub fn cmdauthgo(screq: &[u8]) -> (r: Result<[u8; 40], ErrorKind>)
    requires
        screq@.len() >= 40,
    ensures
        r matches Ok(p) ==> authgo_spec(screq@) == Some(p@),
        r matches Err(e) ==> e == ErrorKind::HandshakeRejected,
        r is Err <==> !go_accepts(screq@),
{
    let c0 = block_at(screq, 8);
    let c1 = block_at(screq, 24);
    let (first, second) = decrypt_pair(&GO_KEY1, &c0, &c1);
    let seed = go_seed(&first, &second)?;
    let zero = [0u8; 16];
    let (r0, r1) = decrypt_pair(&GO_KEY2, &seed, &zero);
    proof {
        assert(zero@ =~= Seq::new(16, |i: int| 0u8));
    }
    let p = go_packet(&r0, &r1);
    assert(p@ == go_payload(seed@));
    Ok(p)
}

} // verus!
