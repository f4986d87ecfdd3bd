//! Protocol engine of a smart-battery authentication controller: framed
//! requests in, framed responses out, and the challenge-response handshakes
//! keyed by hardware revision.
pub mod auth;
pub mod block_cipher;
pub mod codec;
pub mod protocol;
pub mod sweep;
pub mod tables;

pub use auth::{
    cmdauth1, cmdauth2, cmdauthgo, encrypt_bytes, matrix_swap, mix_challenge1, mix_challenge2,
    ErrorKind,
};
pub use codec::{build_packet, checksum};
pub use protocol::{
    cmd_read11, cmd_read13, cmd_read22, cmd_read8, cmd_read_capacity, cmd_read_current,
    cmd_read_serialno, cmd_read_status, cmd_read_temperature, cmd_read_time_left,
    cmd_read_voltage, Commands, Session, RESPONSE_ACK, RESPONSE_NAK,
};
pub use sweep::{Receiver, RxEvent, RxPhase, Sweeper};
pub use tables::{ChallengeKey, ChallengeSecret};
