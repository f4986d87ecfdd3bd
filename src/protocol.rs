//! Command dispatch: from a received frame body and the handshake session to
//! the bytes sent back.
use vstd::prelude::*;
use crate::auth::{auth1_spec, auth2_spec, authgo_spec, cmdauth1, cmdauth2, cmdauthgo};
use crate::codec::{build_packet, frame_spec, FRAME_CAPACITY};
use crate::tables::{lemma_tables_cover_revisions, SERIALNO};

verus! {

/// Response code of a refused request.
pub const RESPONSE_NAK: u8 = 5;

/// Response code of a served request.
pub const RESPONSE_ACK: u8 = 6;

/// Fixed status word.
pub const STATUS: [u8; 3] = [0x10, 0xC3, 0x06];

/// Fixed temperature reading.
pub const TEMPERATURE: [u8; 1] = [27];

/// Fixed voltage reading.
pub const VOLTAGE: [u8; 2] = [0x36, 0x10];

/// Fixed current reading.
pub const CURRENT: u16 = 4200;

/// Fixed capacity reading.
pub const CAPACITY: u16 = 1800;

/// Fixed value of register 8.
pub const READ8: u16 = 1250;

/// Fixed time-left reading.
pub const TIME_LEFT: u16 = 1025;

/// Fixed value of register 11.
pub const READ11: u16 = 15;

/// Fixed value of register 13.
pub const READ13: [u8; 5] = [0x9D, 0x10, 0x10, 0x28, 0x14];

/// Manufacturer string, "SonyEnergyDevices" in ASCII.
pub const MANUFACTURER: [u8; 17] = [
    0x53, 0x6F, 0x6E, 0x79, 0x45, 0x6E, 0x65, 0x72, 0x67, 0x79, 0x44, 0x65, 0x76, 0x69, 0x63, 0x65,
    0x73,
];

/// Payload returned in place of a phase-1 response for an unknown revision.
pub const SENTINEL: [u8; 8] = [0xFF, 0xFF, 0xFF, 0xFF, 0xFF, 0xFF, 0xFF, 0xFF];

/// The read-status request sent unprompted after phase 2 by the revisions
/// for which `prompts_status` holds.
pub const STATUS_REQUEST: [u8; 4] = [0x5A, 0x02, 0x01, 0xA2];

/// The opcodes of the protocol.
#[derive(Clone, Copy, Debug, PartialEq, Eq, Structural)]
pub enum Commands {
    CmdReadStatus,
    CmdReadTemperature,
    CmdReadVoltage,
    CmdReadCurrent,
    CmdReadCapacity,
    CmdRead8,
    CmdReadTimeLeft,
    CmdRead11,
    CmdReadSerialno,
    CmdRead13,
    CmdWriteEeprom,
    CmdReadEeprom,
    CmdRead22,
    CmdAuth1,
    CmdAuth2,
    CmdAuthGo,
}

/// The command that opcode `b` names.
pub open spec fn command_of(b: u8) -> Option<Commands> {
    match b {
        1 => Some(Commands::CmdReadStatus),
        2 => Some(Commands::CmdReadTemperature),
        3 => Some(Commands::CmdReadVoltage),
        4 => Some(Commands::CmdReadCurrent),
        7 => Some(Commands::CmdReadCapacity),
        8 => Some(Commands::CmdRead8),
        9 => Some(Commands::CmdReadTimeLeft),
        11 => Some(Commands::CmdRead11),
        12 => Some(Commands::CmdReadSerialno),
        13 => Some(Commands::CmdRead13),
        19 => Some(Commands::CmdWriteEeprom),
        20 => Some(Commands::CmdReadEeprom),
        22 => Some(Commands::CmdRead22),
        0x80 => Some(Commands::CmdAuth1),
        0x81 => Some(Commands::CmdAuth2),
        0x90 => Some(Commands::CmdAuthGo),
        _ => None,
    }
}

impl Commands {
    /// Decodes an opcode byte.
    pub fn from_byte(b: u8) -> (r: Option<Commands>)
        ensures
            r == command_of(b),
    {
        match b {
            1 => Some(Commands::CmdReadStatus),
            2 => Some(Commands::CmdReadTemperature),
            3 => Some(Commands::CmdReadVoltage),
            4 => Some(Commands::CmdReadCurrent),
            7 => Some(Commands::CmdReadCapacity),
            8 => Some(Commands::CmdRead8),
            9 => Some(Commands::CmdReadTimeLeft),
            11 => Some(Commands::CmdRead11),
            12 => Some(Commands::CmdReadSerialno),
            13 => Some(Commands::CmdRead13),
            19 => Some(Commands::CmdWriteEeprom),
            20 => Some(Commands::CmdReadEeprom),
            22 => Some(Commands::CmdRead22),
            0x80 => Some(Commands::CmdAuth1),
            0x81 => Some(Commands::CmdAuth2),
            0x90 => Some(Commands::CmdAuthGo),
            _ => None,
        }
    }
}

/// Little-endian bytes of `v`.
pub open spec fn le_bytes(v: u16) -> Seq<u8> {
    seq![(v % 256) as u8, (v / 256) as u8]
}

/// The fixed payload of each read command; `None` for the other commands.
pub open spec fn canned_payload(c: Commands) -> Option<Seq<u8>> {
    match c {
        Commands::CmdReadStatus => Some(STATUS@),
        Commands::CmdReadTemperature => Some(TEMPERATURE@),
        Commands::CmdReadVoltage => Some(VOLTAGE@),
        Commands::CmdReadCurrent => Some(le_bytes(CURRENT)),
        Commands::CmdReadCapacity => Some(le_bytes(CAPACITY)),
        Commands::CmdRead8 => Some(le_bytes(READ8)),
        Commands::CmdReadTimeLeft => Some(le_bytes(TIME_LEFT)),
        Commands::CmdRead11 => Some(le_bytes(READ11)),
        Commands::CmdReadSerialno => Some(seq![SERIALNO@[1], SERIALNO@[0], SERIALNO@[3], SERIALNO@[2]]),
        Commands::CmdRead13 => Some(READ13@),
        Commands::CmdRead22 => Some(MANUFACTURER@),
        _ => None,
    }
}

fn u16_le_bytes(v: u16) -> (r: [u8; 2])
    ensures
        r@ == le_bytes(v),
{
    let r = [(v % 256) as u8, (v / 256) as u8];
    assert(r@ =~= le_bytes(v));
    r
}

pub fn cmd_read_status() -> (r: [u8; 3])
    ensures
        canned_payload(Commands::CmdReadStatus) == Some(r@),
{
    STATUS
}

pub fn cmd_read_temperature() -> (r: [u8; 1])
    ensures
        canned_payload(Commands::CmdReadTemperature) == Some(r@),
{
    TEMPERATURE
}

pub fn cmd_read_voltage() -> (r: [u8; 2])
    ensures
        canned_payload(Commands::CmdReadVoltage) == Some(r@),
{
    VOLTAGE
}

pub fn cmd_read_current() -> (r: [u8; 2])
    ensures
        canned_payload(Commands::CmdReadCurrent) == Some(r@),
        r@ == seq![0x68u8, 0x10],
{
    u16_le_bytes(CURRENT)
}

pub fn cmd_read_capacity() -> (r: [u8; 2])
    ensures
        canned_payload(Commands::CmdReadCapacity) == Some(r@),
        r@ == seq![0x08u8, 0x07],
{
    u16_le_bytes(CAPACITY)
}

pub fn cmd_read8() -> (r: [u8; 2])
    ensures
        canned_payload(Commands::CmdRead8) == Some(r@),
        r@ == seq![0xE2u8, 0x04],
{
    u16_le_bytes(READ8)
}

pub fn cmd_read_time_left() -> (r: [u8; 2])
    ensures
        canned_payload(Commands::CmdReadTimeLeft) == Some(r@),
        r@ == seq![0x01u8, 0x04],
{
    u16_le_bytes(TIME_LEFT)
}

pub fn cmd_read11() -> (r: [u8; 2])
    ensures
        canned_payload(Commands::CmdRead11) == Some(r@),
        r@ == seq![0x0Fu8, 0x00],
{
    u16_le_bytes(READ11)
}

/// The serial number with the bytes of each half swapped.
pub fn cmd_read_serialno() -> (r: [u8; 4])
    ensures
        canned_payload(Commands::CmdReadSerialno) == Some(r@),
{
    let r = [SERIALNO[1], SERIALNO[0], SERIALNO[3], SERIALNO[2]];
    assert(r@ =~= seq![SERIALNO@[1], SERIALNO@[0], SERIALNO@[3], SERIALNO@[2]]);
    r
}

pub fn cmd_read13() -> (r: [u8; 5])
    ensures
        canned_payload(Commands::CmdRead13) == Some(r@),
{
    READ13
}

pub fn cmd_read22() -> (r: [u8; 17])
    ensures
        canned_payload(Commands::CmdRead22) == Some(r@),
{
    MANUFACTURER
}

/// The revisions that follow a phase-2 response with a read-status request.
pub open spec fn prompts_status(v: u8) -> bool {
    v == 0xEB || v == 0xB3
}

/// A frame body as the dispatcher reads it: 64 bytes, zero past the end of `body`.
pub open spec fn padded(body: Seq<u8>) -> Seq<u8> {
    Seq::new(64, |i: int| if i < body.len() { body[i] } else { 0u8 })
}

/// What one request does: the bytes sent back, and the session after it
/// (revision byte, retained `ch1b`). `recv` is the padded frame body.
///
/// - a read command is answered with its fixed payload under Ack;
/// - Auth1 records the revision byte; on a known revision it retains `ch1b`
///   and answers with the phase-1 payload, else it answers the all-0xFF
///   sentinel under Ack and keeps `ch1b`;
/// - Auth2 answers the phase-2 payload, or nothing for an unknown revision,
///   then sends a read-status request for the revisions of `prompts_status`;
/// - AuthGo answers the Go payload, or nothing when the request is rejected;
/// - any other opcode is answered with an empty Nak.
pub open spec fn reply_spec(version: u8, ch1b: Seq<u8>, recv: Seq<u8>) -> (Seq<u8>, u8, Seq<u8>) {
    match command_of(recv[0]) {
        Some(Commands::CmdAuth1) => match auth1_spec(recv[1], recv.subrange(2, 64)) {
            Some((p, b)) => (frame_spec(RESPONSE_ACK, p), recv[1], b),
            None => (frame_spec(RESPONSE_ACK, SENTINEL@), recv[1], ch1b),
        },
        Some(Commands::CmdAuth2) => {
            let answer = match auth2_spec(version, ch1b) {
                Some(p) => frame_spec(RESPONSE_ACK, p),
                None => Seq::empty(),
            };
            let prompt = if prompts_status(version) {
                STATUS_REQUEST@
            } else {
                Seq::empty()
            };
            (answer + prompt, version, ch1b)
        },
        Some(Commands::CmdAuthGo) => match authgo_spec(recv.subrange(1, 64)) {
            Some(p) => (frame_spec(RESPONSE_ACK, p), version, ch1b),
            None => (Seq::empty(), version, ch1b),
        },
        Some(c) => match canned_payload(c) {
            Some(p) => (frame_spec(RESPONSE_ACK, p), version, ch1b),
            None => (frame_spec(RESPONSE_NAK, Seq::empty()), version, ch1b),
        },
        None => (frame_spec(RESPONSE_NAK, Seq::empty()), version, ch1b),
    }
}

/// Appends `bytes` to `out`.
fn append_bytes(out: &mut Vec<u8>, bytes: &[u8])
    ensures
        final(out)@ == old(out)@ + bytes@,
{
    let mut i: usize = 0;
    while i < bytes.len()
        invariant
            0 <= i <= bytes@.len(),
            out@ == old(out)@ + bytes@.subrange(0, i as int),
        decreases bytes@.len() - i,
    {
        out.push(bytes[i]);
        i = i + 1;
        assert(out@ =~= old(out)@ + bytes@.subrange(0, i as int));
    }
    assert(bytes@.subrange(0, bytes@.len() as int) =~= bytes@);
}

/// Appends the frame carrying `payload` under response code `code` to `out`.
fn send_frame(out: &mut Vec<u8>, code: u8, payload: &[u8])
    requires
        payload@.len() + 4 <= FRAME_CAPACITY,
    ensures
        final(out)@ == old(out)@ + frame_spec(code, payload@),
{
    let f = build_packet(code, payload);
    append_bytes(out, &f.0[0..f.1]);
}

/// Appends the Ack frame carrying `payload` to `out`.
fn send_ack(out: &mut Vec<u8>, payload: &[u8])
    requires
        payload@.len() + 4 <= FRAME_CAPACITY,
    ensures
        final(out)@ == old(out)@ + frame_spec(RESPONSE_ACK, payload@),
{
    send_frame(out, RESPONSE_ACK, payload);
}

/// The state kept between the two phases of the handshake.
pub struct Session {
    /// Revision byte of the last Auth1 request.
    pub challenge_version: u8,
    /// Value derived by the last successful Auth1 request.
    pub challenge1b: [u8; 16],
}

impl Session {
    /// A session before any handshake.
    pub fn new() -> (r: Session)
        ensures
            r.challenge_version == 0,
            r.challenge1b@ == Seq::new(16, |i: int| 0u8),
    {
        let r = Session { challenge_version: 0, challenge1b: [0u8; 16] };
        assert(r.challenge1b@ =~= Seq::new(16, |i: int| 0u8));
        r
    }

    /// Serves one request. `body` is the frame body: opcode, then payload.
    /// Returns the bytes to send, possibly none.
    pub fn handle(&mut self, body: &[u8]) -> (out: Vec<u8>)
        requires
            body@.len() <= 64,
        ensures
            ({
                let (bytes, v, b) = reply_spec(
                    old(self).challenge_version,
                    old(self).challenge1b@,
                    padded(body@),
                );
                &&& out@ == bytes
                &&& final(self).challenge_version == v
                &&& final(self).challenge1b@ == b
            }),
    {
        let mut recv = [0u8; 64];
        let mut i: usize = 0;
        while i < body.len()
            invariant
                0 <= i <= body@.len() <= 64,
                forall|j: int| 0 <= j < i ==> recv@[j] == body@[j],
                forall|j: int| i <= j < 64 ==> recv@[j] == 0,
            decreases body@.len() - i,
        {
            recv[i] = body[i];
            i = i + 1;
        }
        assert(recv@ =~= padded(body@));
        let ghost expected = reply_spec(self.challenge_version, self.challenge1b@, recv@);
        proof {
            lemma_tables_cover_revisions(recv@[1]);
            lemma_tables_cover_revisions(self.challenge_version);
        }
        let mut out: Vec<u8> = Vec::new();
        match Commands::from_byte(recv[0]) {
            Some(Commands::CmdReadStatus) => send_ack(&mut out, &cmd_read_status()),
            Some(Commands::CmdReadTemperature) => send_ack(&mut out, &cmd_read_temperature()),
            Some(Commands::CmdReadVoltage) => send_ack(&mut out, &cmd_read_voltage()),
            Some(Commands::CmdReadCurrent) => send_ack(&mut out, &cmd_read_current()),
            Some(Commands::CmdReadCapacity) => send_ack(&mut out, &cmd_read_capacity()),
            Some(Commands::CmdRead8) => send_ack(&mut out, &cmd_read8()),
            Some(Commands::CmdReadTimeLeft) => send_ack(&mut out, &cmd_read_time_left()),
            Some(Commands::CmdRead11) => send_ack(&mut out, &cmd_read11()),
            Some(Commands::CmdReadSerialno) => send_ack(&mut out, &cmd_read_serialno()),
            Some(Commands::CmdRead13) => send_ack(&mut out, &cmd_read13()),
            Some(Commands::CmdRead22) => send_ack(&mut out, &cmd_read22()),
            Some(Commands::CmdAuth1) => {
                self.challenge_version = recv[1];
                match cmdauth1(recv[1], &recv[2..64]) {
                    Ok((response, bchal)) => {
                        self.challenge1b = bchal;
                        send_ack(&mut out, &response);
                    },
                    Err(_) => {
                        send_ack(&mut out, &SENTINEL);
                    },
                }
            },
            Some(Commands::CmdAuth2) => {
                if let Ok(response) = cmdauth2(self.challenge_version, &recv[2..64], &self.challenge1b) {
                    send_ack(&mut out, &response);
                }
                if self.challenge_version == 0xEB || self.challenge_version == 0xB3 {
                    append_bytes(&mut out, &STATUS_REQUEST);
                }
            },
            Some(Commands::CmdAuthGo) => {
                if let Ok(response) = cmdauthgo(&recv[1..64]) {
                    send_ack(&mut out, &response);
                }
            },
            _ => {
                let empty: [u8; 0] = [];
                send_frame(&mut out, RESPONSE_NAK, &empty);
            },
        }
        assert(out@ =~= expected.0);
        out
    }
}

} // verus!
