//! The duplex relay: one forwarding state machine per direction, and the
//! race-and-cancel shutdown protocol that joins them.
//!
//! Each direction's loop repeatedly reads the next frame from its source
//! session, adapts it, and writes it to the destination session. The caller
//! owns the sessions and performs the reads and writes; it reports each
//! observation as a [`ReadEvent`] or a write outcome, and this module decides
//! what happens next. Each leg carries a ghost transcript of what it read and
//! what it handed to its destination, so order preservation is stated and
//! checked, not assumed.

use vstd::prelude::*;

use crate::message::DownMessage;
use crate::message::DownMessageView;
use crate::message::UpMessage;
use crate::message::UpMessageView;
use crate::message::down_of_up;
use crate::message::to_downstream;
use crate::message::to_upstream;
use crate::message::up_of_down;

verus! {

/// The lifecycle of one forwarding direction: it runs until its source ends
/// (`Closed`), a read or write on it fails (`Failed`), or the supervisor
/// cancels it (`Closed`).
#[derive(Clone, Copy, Debug, PartialEq, Eq, Structural)]
pub enum LegStatus {
    Running,
    Closed,
    Failed,
}

/// What one read from a source session produced: the next frame, an orderly
/// end of stream, or a transport error.
pub enum ReadEvent<M> {
    Frame(M),
    End,
    Failed,
}

/// What the forwarding loop must do after one read: write the adapted frame
/// to the destination session (then report the outcome with `on_write`),
/// silently drop a frame the destination vocabulary cannot represent and
/// read again, or stop because the source terminated.
pub enum LegAction<M> {
    Forward(M),
    Skip,
    Stop,
}

/// The client-to-upstream leg: reads downstream frames and forwards each one,
/// adapted, to the upstream session. The adapter is total on the downstream
/// vocabulary, so nothing is ever dropped in this direction.
pub struct ClientToUpstream {
    pub status: LegStatus,
    /// Every frame read from the downstream session, oldest first.
    pub received: Ghost<Seq<DownMessageView>>,
    /// Every frame handed to the upstream session, oldest first.
    pub forwarded: Ghost<Seq<UpMessageView>>,
}

/// The upstream-to-client leg: reads upstream frames and forwards each one
/// the downstream vocabulary can represent, adapted, to the downstream
/// session; a raw low-level frame is dropped without stopping the loop.
pub struct UpstreamToClient {
    pub status: LegStatus,
    /// Every frame read from the upstream session, oldest first.
    pub received: Ghost<Seq<UpMessageView>>,
    /// Every frame handed to the downstream session, oldest first.
    pub forwarded: Ghost<Seq<DownMessageView>>,
}

/// The downstream frames that a sequence of upstream frames yields: each one
/// that the downstream vocabulary can represent, adapted, in order.
pub open spec fn deliverable(s: Seq<UpMessageView>) -> Seq<DownMessageView>
    decreases s.len(),
{
    if s.len() == 0 {
        Seq::empty()
    } else {
        match down_of_up(s.last()) {
            Some(d) => deliverable(s.drop_last()).push(d),
            None => deliverable(s.drop_last()),
        }
    }
}

proof fn lemma_deliverable_push(s: Seq<UpMessageView>, x: UpMessageView)
    ensures
        deliverable(s.push(x)) == (match down_of_up(x) {
            Some(d) => deliverable(s).push(d),
            None => deliverable(s),
        }),
{
    assert(s.push(x).last() == x);
    assert(s.push(x).drop_last() =~= s);
}

impl ClientToUpstream {
    /// The leg's transcripts agree: what was handed upstream is exactly what
    /// was read from the client, adapted, in identical order.
    pub open spec fn wf(self) -> bool {
        self.forwarded@ == self.received@.map_values(|d: DownMessageView| up_of_down(d))
    }

    /// A fresh leg: running, nothing read, nothing forwarded.
    pub fn new() -> (r: Self)
        ensures
            r.wf(),
            r.status == LegStatus::Running,
            r.received@ == Seq::<DownMessageView>::empty(),
            r.forwarded@ == Seq::<UpMessageView>::empty(),
    {
        let leg = ClientToUpstream {
            status: LegStatus::Running,
            received: Ghost(Seq::empty()),
            forwarded: Ghost(Seq::empty()),
        };
        proof {
            assert(leg.received@.map_values(|d: DownMessageView| up_of_down(d)) =~= Seq::<
                UpMessageView,
            >::empty());
        }
        leg
    }

    /// One read from the downstream session. A frame is adapted and must be
    /// written to the upstream session; end of stream or a read error stops
    /// the leg, and nothing further is forwarded.
    pub fn on_read(&mut self, ev: ReadEvent<DownMessage>) -> (r: LegAction<UpMessage>)
        requires
            old(self).status == LegStatus::Running,
            old(self).wf(),
        ensures
            final(self).wf(),
            (match ev {
                ReadEvent::Frame(m) => {
                    &&& final(self).status == LegStatus::Running
                    &&& final(self).received@ == old(self).received@.push(m@)
                    &&& final(self).forwarded@ == old(self).forwarded@.push(up_of_down(m@))
                    &&& r matches LegAction::Forward(u) && u@ == up_of_down(m@)
                },
                ReadEvent::End => {
                    &&& final(self).status == LegStatus::Closed
                    &&& final(self).received@ == old(self).received@
                    &&& final(self).forwarded@ == old(self).forwarded@
                    &&& r matches LegAction::Stop
                },
                ReadEvent::Failed => {
                    &&& final(self).status == LegStatus::Failed
                    &&& final(self).received@ == old(self).received@
                    &&& final(self).forwarded@ == old(self).forwarded@
                    &&& r matches LegAction::Stop
                },
            }),
    {
        match ev {
            ReadEvent::Frame(m) => {
                let ghost mv = m@;
                self.received = Ghost(self.received@.push(mv));
                self.forwarded = Ghost(self.forwarded@.push(up_of_down(mv)));
                proof {
                    let f = |d: DownMessageView| up_of_down(d);
                    assert(old(self).received@.push(mv).map_values(f) =~= old(self).received@.map_values(f).push(up_of_down(mv)));
                }
                LegAction::Forward(to_upstream(m))
            },
            ReadEvent::End => {
                self.status = LegStatus::Closed;
                LegAction::Stop
            },
            ReadEvent::Failed => {
                self.status = LegStatus::Failed;
                LegAction::Stop
            },
        }
    }

    /// The outcome of writing the adapted frame to the upstream session: a
    /// failed write stops the leg; nothing read or forwarded changes.
    pub fn on_write(&mut self, delivered: bool)
        requires
            old(self).status == LegStatus::Running,
        ensures
            final(self).received@ == old(self).received@,
            final(self).forwarded@ == old(self).forwarded@,
            final(self).status == (if delivered {
                LegStatus::Running
            } else {
                LegStatus::Failed
            }),
            old(self).wf() ==> final(self).wf(),
    {
        if !delivered {
            self.status = LegStatus::Failed;
        }
    }

    /// Cancellation by the supervisor: a running leg stops at once, without
    /// reading or forwarding anything further; a leg that already stopped
    /// keeps its outcome.
    pub fn cancel(&mut self)
        ensures
            final(self).received@ == old(self).received@,
            final(self).forwarded@ == old(self).forwarded@,
            final(self).status == (if old(self).status == LegStatus::Running {
                LegStatus::Closed
            } else {
                old(self).status
            }),
            old(self).wf() ==> final(self).wf(),
    {
        if self.status == LegStatus::Running {
            self.status = LegStatus::Closed;
        }
    }
}

impl UpstreamToClient {
    /// The leg's transcripts agree: what was handed to the client is exactly
    /// the representable part of what was read from upstream, adapted, in
    /// identical order.
    pub open spec fn wf(self) -> bool {
        self.forwarded@ == deliverable(self.received@)
    }

    /// A fresh leg: running, nothing read, nothing forwarded.
    pub fn new() -> (r: Self)
        ensures
            r.wf(),
            r.status == LegStatus::Running,
            r.received@ == Seq::<UpMessageView>::empty(),
            r.forwarded@ == Seq::<DownMessageView>::empty(),
    {
        UpstreamToClient {
            status: LegStatus::Running,
            received: Ghost(Seq::empty()),
            forwarded: Ghost(Seq::empty()),
        }
    }

    /// One read from the upstream session. A representable frame is adapted
    /// and must be written to the downstream session; a raw low-level frame
    /// is dropped and the leg keeps running; end of stream or a read error
    /// stops the leg, and nothing further is forwarded.
    pub fn on_read(&mut self, ev: ReadEvent<UpMessage>) -> (r: LegAction<DownMessage>)
        requires
            old(self).status == LegStatus::Running,
            old(self).wf(),
        ensures
            final(self).wf(),
            (match ev {
                ReadEvent::Frame(m) => {
                    &&& final(self).status == LegStatus::Running
                    &&& final(self).received@ == old(self).received@.push(m@)
                    &&& (match down_of_up(m@) {
                        Some(v) => {
                            &&& final(self).forwarded@ == old(self).forwarded@.push(v)
                            &&& r matches LegAction::Forward(d) && d@ == v
                        },
                        None => {
                            &&& final(self).forwarded@ == old(self).forwarded@
                            &&& r matches LegAction::Skip
                        },
                    })
                },
                ReadEvent::End => {
                    &&& final(self).status == LegStatus::Closed
                    &&& final(self).received@ == old(self).received@
                    &&& final(self).forwarded@ == old(self).forwarded@
                    &&& r matches LegAction::Stop
                },
                ReadEvent::Failed => {
                    &&& final(self).status == LegStatus::Failed
                    &&& final(self).received@ == old(self).received@
                    &&& final(self).forwarded@ == old(self).forwarded@
                    &&& r matches LegAction::Stop
                },
            }),
    {
        match ev {
            ReadEvent::Frame(m) => {
                let ghost mv = m@;
                self.received = Ghost(self.received@.push(mv));
                proof {
                    lemma_deliverable_push(old(self).received@, mv);
                }
                match to_downstream(m) {
                    Some(d) => {
                        self.forwarded = Ghost(self.forwarded@.push(d@));
                        LegAction::Forward(d)
                    },
                    None => LegAction::Skip,
                }
            },
            ReadEvent::End => {
                self.status = LegStatus::Closed;
                LegAction::Stop
            },
            ReadEvent::Failed => {
                self.status = LegStatus::Failed;
                LegAction::Stop
            },
        }
    }

    /// The outcome of writing the adapted frame to the downstream session: a
    /// failed write stops the leg; nothing read or forwarded changes.
    pub fn on_write(&mut self, delivered: bool)
        requires
            old(self).status == LegStatus::Running,
        ensures
            final(self).received@ == old(self).received@,
            final(self).forwarded@ == old(self).forwarded@,
            final(self).status == (if delivered {
                LegStatus::Running
            } else {
                LegStatus::Failed
            }),
            old(self).wf() ==> final(self).wf(),
    {
        if !delivered {
            self.status = LegStatus::Failed;
        }
    }

    /// Cancellation by the supervisor: a running leg stops at once, without
    /// reading or forwarding anything further; a leg that already stopped
    /// keeps its outcome.
    pub fn cancel(&mut self)
        ensures
            final(self).received@ == old(self).received@,
            final(self).forwarded@ == old(self).forwarded@,
            final(self).status == (if old(self).status == LegStatus::Running {
                LegStatus::Closed
            } else {
                old(self).status
            }),
            old(self).wf() ==> final(self).wf(),
    {
        if self.status == LegStatus::Running {
            self.status = LegStatus::Closed;
        }
    }
}

/// The two legs of one relay invocation. The legs share nothing: each owns
/// its own status and transcripts, so traffic on one direction can never
/// alter what the other direction forwards.
pub struct DuplexRelay {
    pub client_to_upstream: ClientToUpstream,
    pub upstream_to_client: UpstreamToClient,
}

impl DuplexRelay {
    pub open spec fn wf(self) -> bool {
        &&& self.client_to_upstream.wf()
        &&& self.upstream_to_client.wf()
    }

    /// Both loops have stopped.
    pub open spec fn terminated(self) -> bool {
        &&& self.client_to_upstream.status != LegStatus::Running
        &&& self.upstream_to_client.status != LegStatus::Running
    }

    /// A fresh relay: both legs running, nothing forwarded yet.
    pub fn new() -> (r: Self)
        ensures
            r.wf(),
            r.client_to_upstream.status == LegStatus::Running,
            r.upstream_to_client.status == LegStatus::Running,
            r.client_to_upstream.received@ == Seq::<DownMessageView>::empty(),
            r.client_to_upstream.forwarded@ == Seq::<UpMessageView>::empty(),
            r.upstream_to_client.received@ == Seq::<UpMessageView>::empty(),
            r.upstream_to_client.forwarded@ == Seq::<DownMessageView>::empty(),
    {
        DuplexRelay { client_to_upstream: ClientToUpstream::new(), upstream_to_client: UpstreamToClient::new() }
    }

    /// The shutdown protocol, run the instant either loop terminates for any
    /// reason: the other loop is cancelled unconditionally, so the relay as a
    /// whole stops — a leg that already stopped keeps its outcome, the
    /// cancelled leg reads and forwards nothing further, and no transcript
    /// changes.
    pub fn on_first_termination(&mut self)
        requires
            old(self).client_to_upstream.status != LegStatus::Running || old(self).upstream_to_client.status != LegStatus::Running,
        ensures
            final(self).terminated(),
            final(self).client_to_upstream.status == (if old(self).client_to_upstream.status
                == LegStatus::Running {
                LegStatus::Closed
            } else {
                old(self).client_to_upstream.status
            }),
            final(self).upstream_to_client.status == (if old(self).upstream_to_client.status
                == LegStatus::Running {
                LegStatus::Closed
            } else {
                old(self).upstream_to_client.status
            }),
            final(self).client_to_upstream.received@ == old(self).client_to_upstream.received@,
            final(self).client_to_upstream.forwarded@ == old(self).client_to_upstream.forwarded@,
            final(self).upstream_to_client.received@ == old(self).upstream_to_client.received@,
            final(self).upstream_to_client.forwarded@ == old(self).upstream_to_client.forwarded@,
            old(self).wf() ==> final(self).wf(),
    {
        self.client_to_upstream.cancel();
        self.upstream_to_client.cancel();
    }
}

/// Within one direction, forwarding preserves the receive order exactly: the
/// client-to-upstream leg has handed the upstream session one adapted frame
/// per frame read, in identical order.
pub proof fn lemma_client_order_preserved(leg: ClientToUpstream)
    requires
        leg.wf(),
    ensures
        leg.forwarded@.len() == leg.received@.len(),
        forall|i: int|
            0 <= i < leg.received@.len() ==> leg.forwarded@[i] == up_of_down(leg.received@[i]),
{
}

/// No cross-direction corruption: in a well-formed relay, each direction's
/// output is determined by that direction's own input stream alone — the
/// client-to-upstream leg forwards exactly its reads, adapted, in order, and
/// the upstream-to-client leg forwards exactly the representable part of its
/// reads, adapted, in order.
pub proof fn lemma_no_cross_direction_corruption(r: DuplexRelay)
    requires
        r.wf(),
    ensures
        r.client_to_upstream.forwarded@ == r.client_to_upstream.received@.map_values(
            |d: DownMessageView| up_of_down(d),
        ),
        r.upstream_to_client.forwarded@ == deliverable(r.upstream_to_client.received@),
{
}

} // verus!
