//! Per-revision secrets and keys, and the fixed constants of the Go handshake.
use vstd::prelude::*;

verus! {

/// A phase secret of one hardware revision.
pub struct ChallengeSecret {
    pub version: u8,
    pub secret: [u8; 8],
}

/// The AES-128 key of one hardware revision.
pub struct ChallengeKey {
    pub version: u8,
    pub key: [u8; 16],
}

/// Number of hardware revisions known to the tables.
pub const N_REVISIONS: usize = 15;

/// The revision bytes; row `i` of every table below belongs to `REVISIONS[i]`.
pub const REVISIONS: [u8; 15] = [
    0x00, 0x01, 0x02, 0x03, 0x04, 0x05, 0x06, 0x08, 0x0A, 0x0D, 0x2F, 0x97, 0xB3, 0xD9, 0xEB,
];

/// Secrets mixed into the challenge in phase 1.
pub const SECRETS1: [[u8; 8]; 15] = [
    [0xD2, 0x07, 0x22, 0x53, 0xA4, 0xF2, 0x74, 0x68],
    [0xF5, 0xD7, 0xD4, 0xB5, 0x75, 0xF0, 0x8E, 0x4E],
    [0xB3, 0x7A, 0x16, 0xEF, 0x55, 0x7B, 0xD0, 0x89],
    [0xCC, 0x69, 0x95, 0x81, 0xFD, 0x89, 0x12, 0x6C],
    [0xA0, 0x4E, 0x32, 0xBB, 0xA7, 0x13, 0x9E, 0x46],
    [0x49, 0x5E, 0x03, 0x47, 0x94, 0x93, 0x1D, 0x7B],
    [0xB0, 0xB8, 0x09, 0x83, 0x39, 0x89, 0xFA, 0xE2],
    [0xAD, 0x40, 0x43, 0xB2, 0x56, 0xEB, 0x45, 0x8B],
    [0xC2, 0x37, 0x7E, 0x8A, 0x74, 0x09, 0x6C, 0x5F],
    [0x58, 0x1C, 0x7F, 0x19, 0x44, 0xF9, 0x62, 0x62],
    [0xF1, 0xBC, 0x56, 0x2B, 0xD5, 0x5B, 0xB0, 0x77],
    [0xAF, 0x60, 0x10, 0xA8, 0x46, 0xF7, 0x41, 0xF3],
    [0xD2, 0x07, 0x22, 0x53, 0xA4, 0xF2, 0x74, 0x68],
    [0x90, 0xE1, 0xF0, 0xC0, 0x01, 0x78, 0xE3, 0xFF],
    [0x0B, 0xD9, 0x02, 0x7E, 0x85, 0x1F, 0xA1, 0x23],
];

/// Secrets interleaved with the retained phase-1 value in phase 2.
pub const SECRETS2: [[u8; 8]; 15] = [
    [0xF4, 0xE0, 0x43, 0x13, 0xAD, 0x2E, 0xB4, 0xDB],
    [0xFE, 0x7D, 0x78, 0x99, 0xBF, 0xEC, 0x47, 0xC5],
    [0x86, 0x5E, 0x3E, 0xEF, 0x9D, 0xFB, 0xB1, 0xFD],
    [0x30, 0x6F, 0x3A, 0x03, 0xD8, 0x6C, 0xBE, 0xE4],
    [0xFF, 0x72, 0xBD, 0x2B, 0x83, 0xB8, 0x9D, 0x2F],
    [0x84, 0x22, 0xDF, 0xEA, 0xE2, 0x1B, 0x63, 0xC2],
    [0x58, 0xB9, 0x5A, 0xAE, 0xF3, 0x99, 0xDB, 0xD0],
    [0x67, 0xC0, 0x72, 0x15, 0xD9, 0x6B, 0x39, 0xA1],
    [0x09, 0x3E, 0xC5, 0x19, 0xAF, 0x0F, 0x50, 0x2D],
    [0x31, 0x80, 0x53, 0x87, 0x5C, 0x20, 0x3E, 0x24],
    [0x1B, 0xDF, 0x24, 0x33, 0xEB, 0x29, 0x15, 0x5B],
    [0x9D, 0xEE, 0xC0, 0x11, 0x44, 0xB6, 0x6F, 0x41],
    [0xE3, 0x2B, 0x8F, 0x56, 0xB2, 0x64, 0x12, 0x98],
    [0xC3, 0x4A, 0x6A, 0x7B, 0x20, 0x5F, 0xE8, 0xF9],
    [0xF7, 0x91, 0xED, 0x0B, 0x3F, 0x49, 0xA4, 0x48],
];

/// AES-128 keys used by both authentication phases.
pub const KEYS: [[u8; 16]; 15] = [
    [0x5C, 0x52, 0xD9, 0x1C, 0xF3, 0x82, 0xAC, 0xA4, 0x89, 0xD8, 0x81, 0x78, 0xEC, 0x16, 0x29, 0x7B],
    [0x9D, 0x4F, 0x50, 0xFC, 0xE1, 0xB6, 0x8E, 0x12, 0x09, 0x30, 0x7D, 0xDB, 0xA6, 0xA5, 0xB5, 0xAA],
    [0x09, 0x75, 0x98, 0x88, 0x64, 0xAC, 0xF7, 0x62, 0x1B, 0xC0, 0x90, 0x9D, 0xF0, 0xFC, 0xAB, 0xFF],
    [0xC9, 0x11, 0x5C, 0xE2, 0x06, 0x4A, 0x26, 0x86, 0xD8, 0xD6, 0xD9, 0xD0, 0x8C, 0xDE, 0x30, 0x59],
    [0x66, 0x75, 0x39, 0xD2, 0xFB, 0x42, 0x73, 0xB2, 0x90, 0x3F, 0xD7, 0xA3, 0x9E, 0xD2, 0xC6, 0x0C],
    [0xF4, 0xFA, 0xEF, 0x20, 0xF4, 0xDB, 0xAB, 0x31, 0xD1, 0x86, 0x74, 0xFD, 0x8F, 0x99, 0x05, 0x66],
    [0xEA, 0x0C, 0x81, 0x13, 0x63, 0xD7, 0xE9, 0x30, 0xF9, 0x61, 0x13, 0x5A, 0x4F, 0x35, 0x2D, 0xDC],
    [0x0A, 0x2E, 0x73, 0x30, 0x5C, 0x38, 0x2D, 0x4F, 0x31, 0x0D, 0x0A, 0xED, 0x84, 0xA4, 0x18, 0x00],
    [0xAC, 0x00, 0xC0, 0xE3, 0xE8, 0x0A, 0xF0, 0x68, 0x3F, 0xDD, 0x17, 0x45, 0x19, 0x45, 0x43, 0xBD],
    [0xDF, 0xF3, 0xFC, 0xD6, 0x08, 0xB0, 0x55, 0x97, 0xCF, 0x09, 0xA2, 0x3B, 0xD1, 0x7D, 0x3F, 0xD2],
    [0x4A, 0xA7, 0xC7, 0xB0, 0x11, 0x34, 0x46, 0x6F, 0xAC, 0x82, 0x16, 0x3E, 0x4B, 0xB5, 0x1B, 0xF9],
    [0xCA, 0xC8, 0xB8, 0x7A, 0xCD, 0x9E, 0xC4, 0x96, 0x90, 0xAB, 0xE0, 0x81, 0x39, 0x20, 0xB1, 0x10],
    [0x03, 0xBE, 0xB6, 0x54, 0x99, 0x14, 0x04, 0x83, 0xBA, 0x18, 0x7A, 0x64, 0xEF, 0x90, 0x26, 0x1D],
    [0xC7, 0xAC, 0x13, 0x06, 0xDE, 0xFE, 0x39, 0xEC, 0x83, 0xA1, 0x48, 0x3B, 0x0E, 0xE2, 0xEC, 0x89],
    [0x41, 0x84, 0x99, 0xBE, 0x9D, 0x35, 0xA3, 0xB9, 0xFC, 0x6A, 0xD0, 0xD6, 0xF0, 0x41, 0xBB, 0x26],
];

/// The battery's serial number, as stored.
pub const SERIALNO: [u8; 4] = [0xFF, 0xFF, 0xFF, 0xFF];

/// Key that opens the host's Go request.
pub const GO_KEY1: [u8; 16] = [
    0xC6, 0x6E, 0x9E, 0xD6, 0xEC, 0xBC, 0xB1, 0x21, 0xB7, 0x46, 0x5D, 0x25, 0x03, 0x7D, 0x66, 0x46,
];

/// Key that produces the Go response.
pub const GO_KEY2: [u8; 16] = [
    0xDA, 0x24, 0xDA, 0xB4, 0x3A, 0x61, 0xCB, 0xDF, 0x61, 0xFD, 0x25, 0x5D, 0x0A, 0xEA, 0x79, 0x57,
];

/// The block that a genuine Go request decrypts to in its second slot.
pub const GO_SECRET: [u8; 16] = [
    0x88, 0x0E, 0x2A, 0x94, 0x11, 0x09, 0x26, 0xB2, 0x0E, 0x53, 0xE2, 0x2A, 0xE6, 0x48, 0xAE, 0x9D,
];

/// The hardware revisions for which every table has a row.
pub open spec fn is_revision(v: u8) -> bool {
    v == 0x00 || v == 0x01 || v == 0x02 || v == 0x03 || v == 0x04 || v == 0x05 || v == 0x06
        || v == 0x08 || v == 0x0A || v == 0x0D || v == 0x2F || v == 0x97 || v == 0xB3
        || v == 0xD9 || v == 0xEB
}

/// First row at or after `i` whose revision byte is `v`.
pub open spec fn row_from(v: u8, i: int) -> Option<int>
    decreases 15 - i,
{
    if i < 0 || i >= 15 {
        None
    } else if REVISIONS@[i] == v {
        Some(i)
    } else {
        row_from(v, i + 1)
    }
}

/// The table row of revision `v`, if it has one.
pub open spec fn row_of(v: u8) -> Option<int> {
    row_from(v, 0)
}

/// The phase-1 secret of revision `v`.
pub open spec fn secret1_of(v: u8) -> Option<Seq<u8>> {
    match row_of(v) {
        Some(i) => Some(SECRETS1@[i]@),
        None => None,
    }
}

/// The phase-2 secret of revision `v`.
pub open spec fn secret2_of(v: u8) -> Option<Seq<u8>> {
    match row_of(v) {
        Some(i) => Some(SECRETS2@[i]@),
        None => None,
    }
}

/// The AES key of revision `v`.
pub open spec fn key_of(v: u8) -> Option<Seq<u8>> {
    match row_of(v) {
        Some(i) => Some(KEYS@[i]@),
        None => None,
    }
}

proof fn lemma_row_from_bounds(v: u8, i: int)
    ensures
        row_from(v, i) matches Some(j) ==> 0 <= i <= j < 15 && REVISIONS@[j] == v,
    decreases 15 - i,
{
    if 0 <= i < 15 && REVISIONS@[i] != v {
        lemma_row_from_bounds(v, i + 1);
    }
}

/// Finds the row of revision `version`, scanning the revision table.
fn find_row(version: u8) -> (r: Option<usize>)
    ensures
        r matches Some(i) ==> row_of(version) == Some(i as int),
        r is None ==> row_of(version) is None,
{
    let mut i: usize = 0;
    while i < N_REVISIONS
        invariant
            0 <= i <= 15,
            row_of(version) == row_from(version, i as int),
        decreases 15 - i,
    {
        if REVISIONS[i] == version {
            return Some(i);
        }
        i = i + 1;
    }
    None
}

/// Looks up the phase-1 secret of a revision.
pub fn lookup_secret1(version: u8) -> (r: Option<ChallengeSecret>)
    ensures
        r matches Some(e) ==> e.version == version && secret1_of(version) == Some(e.secret@),
        r is None <==> secret1_of(version) is None,
{
    match find_row(version) {
        Some(i) => {
            proof { lemma_row_from_bounds(version, 0); }
            Some(ChallengeSecret { version, secret: SECRETS1[i] })
        },
        None => None,
    }
}

/// Looks up the phase-2 secret of a revision.
pub fn lookup_secret2(version: u8) -> (r: Option<ChallengeSecret>)
    ensures
        r matches Some(e) ==> e.version == version && secret2_of(version) == Some(e.secret@),
        r is None <==> secret2_of(version) is None,
{
    match find_row(version) {
        Some(i) => {
            proof { lemma_row_from_bounds(version, 0); }
            Some(ChallengeSecret { version, secret: SECRETS2[i] })
        },
        None => None,
    }
}

/// Looks up the AES key of a revision.
pub fn lookup_key(version: u8) -> (r: Option<ChallengeKey>)
    ensures
        r matches Some(e) ==> e.version == version && key_of(version) == Some(e.key@),
        r is None <==> key_of(version) is None,
{
    match find_row(version) {
        Some(i) => {
            proof { lemma_row_from_bounds(version, 0); }
            Some(ChallengeKey { version, key: KEYS[i] })
        },
        None => None,
    }
}

/// Every table has a row for exactly the known revisions, and no revision
/// byte names two rows.
pub proof fn lemma_tables_cover_revisions(v: u8)
    ensures
        secret1_of(v) is Some <==> is_revision(v),
        secret2_of(v) is Some <==> is_revision(v),
        key_of(v) is Some <==> is_revision(v),
        forall|i: int, j: int|
            0 <= i < 15 && 0 <= j < 15 && REVISIONS@[i] == REVISIONS@[j] ==> i == j,
{
    reveal_with_fuel(row_from, 16);
}

} // verus!
