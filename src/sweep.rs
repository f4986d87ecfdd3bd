//! Frame reception and the sweep loop, as a state machine driven by transport
//! events: the caller reads the bytes and sends what comes back.
use vstd::prelude::*;
use crate::codec::{FRAME_CAPACITY, SYNC_REQUEST};
use crate::protocol::{padded, reply_spec, Session};

verus! {

/// Where reception of a frame stands.
#[derive(Clone, Copy, Debug, PartialEq, Eq, Structural)]
pub enum RxPhase {
    /// Discarding bytes until the request sync byte.
    Sync,
    /// Waiting for the length byte.
    Length,
    /// Collecting the bytes that the length byte announced.
    Body,
}

/// What the transport reported for one read.
#[derive(Clone, Copy, Debug, PartialEq, Eq, Structural)]
pub enum RxEvent {
    /// A byte arrived.
    Byte(u8),
    /// No byte arrived before the per-byte timeout.
    TimedOut,
    /// The transport failed.
    Failed,
}

/// Reception state: the phase, the announced length, and the bytes so far.
pub type RxModel = (RxPhase, u8, Seq<u8>);

/// The state at the start of every frame.
pub open spec fn rx_idle() -> RxModel {
    (RxPhase::Sync, 0u8, Seq::empty())
}

/// One reception step: the next state, and the frame body (opcode and
/// payload, without the trailing checksum) when the frame is complete.
/// A late byte or a transport failure drops the frame under way; so does a
/// length byte of 0 or over `FRAME_CAPACITY`.
pub open spec fn rx_next(s: RxModel, ev: RxEvent) -> (RxModel, Option<Seq<u8>>) {
    let (phase, n, got) = s;
    match phase {
        RxPhase::Sync => match ev {
            RxEvent::Byte(b) => if b == SYNC_REQUEST {
                ((RxPhase::Length, 0u8, Seq::empty()), None)
            } else {
                (rx_idle(), None)
            },
            _ => (rx_idle(), None),
        },
        RxPhase::Length => match ev {
            RxEvent::Byte(b) => if 1 <= b && b as int <= FRAME_CAPACITY {
                ((RxPhase::Body, b, Seq::empty()), None)
            } else {
                (rx_idle(), None)
            },
            _ => (rx_idle(), None),
        },
        RxPhase::Body => match ev {
            RxEvent::Byte(b) => if got.len() + 1 >= n {
                (rx_idle(), Some(got.push(b).subrange(0, n - 1)))
            } else {
                ((RxPhase::Body, n, got.push(b)), None)
            },
            _ => (rx_idle(), None),
        },
    }
}

/// Receives frames one transport event at a time.
pub struct Receiver {
    pub phase: RxPhase,
    pub expected: u8,
    pub got: Vec<u8>,
}

impl Receiver {
    pub open spec fn view(&self) -> RxModel {
        (self.phase, self.expected, self.got@)
    }

    /// A body under way is shorter than its announced length, which is in
    /// `1..=FRAME_CAPACITY`; outside a body nothing is held.
    pub open spec fn wf(&self) -> bool {
        if self.phase == RxPhase::Body {
            1 <= self.expected && self.expected as int <= FRAME_CAPACITY
                && self.got@.len() < self.expected
        } else {
            self.expected == 0 && self.got@.len() == 0
        }
    }

    pub fn new() -> (r: Receiver)
        ensures
            r.view() == rx_idle(),
            r.wf(),
    {
        Receiver { phase: RxPhase::Sync, expected: 0, got: Vec::new() }
    }

    /// Whether the next byte must arrive within the per-byte timeout; bytes
    /// before and including the length byte may take as long as they like.
    pub fn wants_deadline(&self) -> (r: bool)
        ensures
            r == (self.phase == RxPhase::Body),
    {
        self.phase == RxPhase::Body
    }

    /// Takes one transport event; returns the frame body once complete.
    pub fn step(&mut self, ev: RxEvent) -> (r: Option<Vec<u8>>)
        requires
            old(self).wf(),
        ensures
            final(self).wf(),
            final(self).view() == rx_next(old(self).view(), ev).0,
            r matches Some(f) ==> rx_next(old(self).view(), ev).1 == Some(f@),
            r is None ==> rx_next(old(self).view(), ev).1 is None,
    {
        match self.phase {
            RxPhase::Sync => {
                if ev == RxEvent::Byte(SYNC_REQUEST) {
                    self.phase = RxPhase::Length;
                }
                None
            },
            RxPhase::Length => {
                self.phase = RxPhase::Sync;
                if let RxEvent::Byte(b) = ev {
                    if 1 <= b && b as usize <= FRAME_CAPACITY {
                        self.phase = RxPhase::Body;
                        self.expected = b;
                    }
                }
                None
            },
            RxPhase::Body => {
                match ev {
                    RxEvent::Byte(b) => {
                        self.got.push(b);
                        if self.got.len() >= self.expected as usize {
                            let mut body: Vec<u8> = Vec::new();
                            let n = (self.expected - 1) as usize;
                            let mut i: usize = 0;
                            while i < n
                                invariant
                                    0 <= i <= n,
                                    n < self.got@.len(),
                                    body@ == self.got@.subrange(0, i as int),
                                decreases n - i,
                            {
                                body.push(self.got[i]);
                                i = i + 1;
                                assert(body@ =~= self.got@.subrange(0, i as int));
                            }
                            self.phase = RxPhase::Sync;
                            self.expected = 0;
                            self.got = Vec::new();
                            Some(body)
                        } else {
                            None
                        }
                    },
                    _ => {
                        self.phase = RxPhase::Sync;
                        self.expected = 0;
                        self.got = Vec::new();
                        None
                    },
                }
            },
        }
    }
}

/// Handshake state: the revision byte and the retained `ch1b`.
pub type SessionModel = (u8, Seq<u8>);

impl Session {
    pub open spec fn view(&self) -> SessionModel {
        (self.challenge_version, self.challenge1b@)
    }
}

/// One step of the sweep loop: reception moves on, and a complete frame
/// with at least an opcode is dispatched. Returns the next reception state,
/// the next session and the bytes to send.
pub open spec fn sweep_next(rx: RxModel, ses: SessionModel, ev: RxEvent) -> (RxModel, SessionModel, Seq<u8>) {
    let (rx2, frame) = rx_next(rx, ev);
    match frame {
        Some(f) => if f.len() > 0 {
            let (out, v, b) = reply_spec(ses.0, ses.1, padded(f));
            (rx2, (v, b), out)
        } else {
            (rx2, ses, Seq::empty())
        },
        None => (rx2, ses, Seq::empty()),
    }
}

/// The sweep loop over a sequence of events: final states and all bytes sent.
pub open spec fn sweep_run(rx: RxModel, ses: SessionModel, evs: Seq<RxEvent>) -> (RxModel, SessionModel, Seq<u8>)
    decreases evs.len(),
{
    if evs.len() == 0 {
        (rx, ses, Seq::empty())
    } else {
        let (rx1, ses1, out1) = sweep_run(rx, ses, evs.drop_last());
        let (rx2, ses2, out2) = sweep_next(rx1, ses1, evs.last());
        (rx2, ses2, out1 + out2)
    }
}

/// The events of a frame that announces `n` bytes, delivers `bytes`, then
/// ends with `ending`.
pub open spec fn cut_frame(n: u8, bytes: Seq<u8>, ending: RxEvent) -> Seq<RxEvent> {
    seq![RxEvent::Byte(SYNC_REQUEST), RxEvent::Byte(n)] + bytes.map_values(|b: u8| RxEvent::Byte(b))
        + seq![ending]
}

proof fn lemma_partial_frame(ses: SessionModel, n: u8, bytes: Seq<u8>, k: int)
    requires
        1 <= n && n as int <= FRAME_CAPACITY,
        bytes.len() < n,
        0 <= k <= bytes.len(),
    ensures
        sweep_run(
            rx_idle(),
            ses,
            seq![RxEvent::Byte(SYNC_REQUEST), RxEvent::Byte(n)] + bytes.subrange(0, k).map_values(
                |b: u8| RxEvent::Byte(b),
            ),
        ) == ((RxPhase::Body, n, bytes.subrange(0, k)), ses, Seq::<u8>::empty()),
    decreases k,
{
    let head = seq![RxEvent::Byte(SYNC_REQUEST), RxEvent::Byte(n)];
    let evs = head + bytes.subrange(0, k).map_values(|b: u8| RxEvent::Byte(b));
    if k == 0 {
        let one = seq![RxEvent::Byte(SYNC_REQUEST)];
        assert(evs =~= head);
        assert(head.drop_last() =~= one);
        assert(one.drop_last() =~= Seq::<RxEvent>::empty());
        assert(bytes.subrange(0, 0) =~= Seq::<u8>::empty());
        assert(Seq::<u8>::empty() + Seq::<u8>::empty() =~= Seq::<u8>::empty());
        assert(sweep_run(rx_idle(), ses, Seq::<RxEvent>::empty()) == (rx_idle(), ses, Seq::<u8>::empty()));
        assert(sweep_run(rx_idle(), ses, one) == ((RxPhase::Length, 0u8, Seq::<u8>::empty()), ses, Seq::<u8>::empty()));
        assert(sweep_run(rx_idle(), ses, head) == ((RxPhase::Body, n, Seq::<u8>::empty()), ses, Seq::<u8>::empty()));
    } else {
        lemma_partial_frame(ses, n, bytes, k - 1);
        let prev = head + bytes.subrange(0, k - 1).map_values(|b: u8| RxEvent::Byte(b));
        assert(evs.drop_last() =~= prev);
        assert(evs.last() == RxEvent::Byte(bytes[k - 1]));
        assert(bytes.subrange(0, k - 1).push(bytes[k - 1]) =~= bytes.subrange(0, k));
        assert(Seq::<u8>::empty() + Seq::<u8>::empty() =~= Seq::<u8>::empty());
        assert(sweep_run(rx_idle(), ses, prev) == ((RxPhase::Body, n, bytes.subrange(0, k - 1)), ses, Seq::<u8>::empty()));
        assert(sweep_next((RxPhase::Body, n, bytes.subrange(0, k - 1)), ses, RxEvent::Byte(bytes[k - 1]))
            == ((RxPhase::Body, n, bytes.subrange(0, k)), ses, Seq::<u8>::empty()));
    }
}

/// A frame whose announced length is more than the bytes that arrive before
/// a timeout or a transport failure sends nothing, leaves the session as it
/// was, and leaves reception waiting for the next sync byte.
pub proof fn lemma_cut_frame_is_silent(ses: SessionModel, n: u8, bytes: Seq<u8>, ending: RxEvent)
    requires
        1 <= n && n as int <= FRAME_CAPACITY,
        bytes.len() < n,
        ending == RxEvent::TimedOut || ending == RxEvent::Failed,
    ensures
        sweep_run(rx_idle(), ses, cut_frame(n, bytes, ending)) == (rx_idle(), ses, Seq::<u8>::empty()),
{
    let k = bytes.len() as int;
    lemma_partial_frame(ses, n, bytes, k);
    let evs = cut_frame(n, bytes, ending);
    assert(bytes.subrange(0, k) =~= bytes);
    assert(evs.drop_last() =~= seq![RxEvent::Byte(SYNC_REQUEST), RxEvent::Byte(n)]
        + bytes.subrange(0, k).map_values(|b: u8| RxEvent::Byte(b)));
    assert(Seq::<u8>::empty() + Seq::<u8>::empty() =~= Seq::<u8>::empty());
}

/// The sweep loop's state: frame reception and the handshake session.
pub struct Sweeper {
    pub receiver: Receiver,
    pub session: Session,
}

impl Sweeper {
    pub open spec fn wf(&self) -> bool {
        self.receiver.wf()
    }

    /// A sweeper waiting for its first frame, with no handshake under way.
    pub fn new() -> (r: Sweeper)
        ensures
            r.wf(),
            r.receiver.view() == rx_idle(),
            r.session.view() == (0u8, Seq::new(16, |i: int| 0u8)),
    {
        Sweeper { receiver: Receiver::new(), session: Session::new() }
    }

    /// Whether the next read must complete within the per-byte timeout.
    pub fn wants_deadline(&self) -> (r: bool)
        ensures
            r == (self.receiver.phase == RxPhase::Body),
    {
        self.receiver.wants_deadline()
    }

    /// Takes one transport event and returns the bytes to send in reply.
    pub fn on_event(&mut self, ev: RxEvent) -> (out: Vec<u8>)
        requires
            old(self).wf(),
        ensures
            final(self).wf(),
            ({
                let (rx, ses, bytes) = sweep_next(old(self).receiver.view(), old(self).session.view(), ev);
                &&& final(self).receiver.view() == rx
                &&& final(self).session.view() == ses
                &&& out@ == bytes
            }),
    {
        match self.receiver.step(ev) {
            Some(frame) => {
                if frame.len() > 0 {
                    self.session.handle(frame.as_slice())
                } else {
                    Vec::new()
                }
            },
            None => Vec::new(),
        }
    }
}

} // verus!
