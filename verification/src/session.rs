//! The streaming session and its factory.
//!
//! A session owns the outbound bounded queue until the drive loop consumes
//! it, holds at most one producer handle of its own (given out by ownership
//! transfer or by cloning), and forwards inbound messages to a replaceable
//! bounded result channel. The drive loop runs at most once: a second
//! invocation is a no-op. The factory resolves credentials first, connects
//! second, and enqueues the configuration message before any data can flow;
//! if any step fails no session is returned.
use crate::bridge::BoundedChannel;
use crate::bridge::ChannelModel;
use crate::bridge::RecvOutcome;
use crate::bridge::SendOutcome;
use crate::bridge::chan_wf;
use crate::bridge::dec_producers;
use crate::bridge::recv_post;
use crate::bridge::send_accepted;
use crate::bridge::send_post;
use crate::errors::Error;
use crate::errors::ErrorKind;
use crate::messages::InboundMessage;
use crate::messages::OutboundMessage;
use crate::messages::RecognitionConfig;
use crate::messages::StreamEnd;
use vstd::prelude::*;

verus! {

/// Capacity of a bounded channel when the caller supplies none.
pub const DEFAULT_CAPACITY: usize = 1000;

/// An authorization header value resolved from credentials.
#[derive(Clone, Debug)]
pub struct AuthToken {
    pub header_value: String,
}

/// An established transport channel, opaque to the core but for an
/// identifier that tells one apart from another.
#[derive(Clone, Copy, Debug, PartialEq, Eq, Structural)]
pub struct TransportChannel {
    pub id: u64,
}

/// A producer handle for the outbound queue. Dropping every handle (the
/// session's own included) is the sole graceful end-of-input signal.
#[derive(Debug)]
pub struct AudioSink {}

/// A consumer handle for one generation of the result-delivery channel.
/// Only the handle of the current generation observes messages.
#[derive(Clone, Copy, Debug)]
pub struct ResultReceiver {
    pub generation: u64,
}

/// The drive loop's state: it is entered only from `NotStarted`, stays
/// `Running` while suspended on a full result channel, and is `Finished`
/// once the call ended — `true` when the remote half-closed cleanly,
/// `false` when the call was refused or the stream faulted.
#[derive(Clone, Copy, Debug, PartialEq, Eq, Structural)]
pub enum DriveState {
    NotStarted,
    Running,
    Finished(bool),
}

/// The mathematical state of a session.
#[verifier::ext_equal]
pub struct SessionModel {
    pub transport_id: int,
    pub outbound: Option<ChannelModel<OutboundMessage>>,
    pub holds_sink: bool,
    pub results: Option<ChannelModel<InboundMessage>>,
    pub generation: int,
    pub drive: DriveState,
}

/// Well-formedness of a session: the session's own producer handle is
/// counted while held, live channels never overflow their capacity, the
/// session keeps the result sender alive, and a drive that has started has
/// consumed the outbound queue.
pub open spec fn session_wf(s: SessionModel) -> bool {
    &&& ((s.holds_sink && s.outbound is Some) ==> s.outbound->0.producers >= 1)
    &&& (s.outbound is Some ==> s.outbound->0.consumer_live && chan_wf(s.outbound->0))
    &&& (s.results is Some ==> s.results->0.consumer_live && s.results->0.producers >= 1
        && chan_wf(s.results->0))
    &&& (!(s.drive is NotStarted) ==> s.outbound is None)
    &&& s.generation >= 0
}

/// Taking the producer handle out transfers ownership: the session's own
/// reference is gone, the number of live handles is unchanged.
pub open spec fn take_sink_post(s: SessionModel) -> SessionModel {
    SessionModel { holds_sink: false, ..s }
}

/// Cloning the producer handle leaves the session's own reference in
/// place and adds one live handle: unsuitable as the sole way to signal
/// end-of-input.
pub open spec fn clone_sink_post(s: SessionModel) -> SessionModel {
    if s.holds_sink && s.outbound is Some {
        SessionModel {
            outbound: Some(
                ChannelModel { producers: (s.outbound->0.producers + 1) as nat, ..s.outbound->0 },
            ),
            ..s
        }
    } else {
        s
    }
}

/// Dropping the session's own producer handle.
pub open spec fn drop_sink_post(s: SessionModel) -> SessionModel {
    if s.holds_sink && s.outbound is Some {
        SessionModel {
            holds_sink: false,
            outbound: Some(
                ChannelModel { producers: dec_producers(s.outbound->0.producers), ..s.outbound->0 },
            ),
            ..s
        }
    } else {
        SessionModel { holds_sink: false, ..s }
    }
}

/// The number of producer handles the session itself accounts for.
pub open spec fn sink_floor(s: SessionModel) -> nat {
    if s.holds_sink {
        1nat
    } else {
        0nat
    }
}

/// A caller-held producer handle is dropped. Releases beyond the handles
/// actually given out are ignored.
pub open spec fn release_sink_post(s: SessionModel) -> SessionModel {
    if s.outbound is Some && s.outbound->0.producers > sink_floor(s) {
        SessionModel {
            outbound: Some(
                ChannelModel { producers: dec_producers(s.outbound->0.producers), ..s.outbound->0 },
            ),
            ..s
        }
    } else {
        s
    }
}

/// An outbound send is accepted exactly when the queue is still with the
/// session and has room.
pub open spec fn send_audio_accepted(s: SessionModel) -> bool {
    s.outbound is Some && send_accepted(s.outbound->0)
}

/// The session state after an accepted outbound send.
pub open spec fn send_audio_post(s: SessionModel, m: OutboundMessage) -> SessionModel {
    if s.outbound is Some {
        SessionModel { outbound: Some(send_post(s.outbound->0, m)), ..s }
    } else {
        s
    }
}

/// The capacity a caller-supplied option selects.
pub open spec fn chosen_capacity(buffer_size: Option<usize>) -> nat {
    if buffer_size is Some {
        buffer_size->0 as nat
    } else {
        DEFAULT_CAPACITY as nat
    }
}

/// Creating a result delivery replaces any earlier channel with a fresh
/// empty one of the next generation: the earlier receiver observes nothing
/// further and no message is duplicated across the two.
pub open spec fn result_delivery_post(s: SessionModel, cap: nat) -> SessionModel {
    SessionModel {
        results: Some(
            ChannelModel { capacity: cap, queue: Seq::empty(), producers: 1nat, consumer_live: true },
        ),
        generation: s.generation + 1,
        ..s
    }
}

/// The drive loop runs only from `NotStarted` with the outbound queue
/// still in the session.
pub open spec fn drive_ready(s: SessionModel) -> bool {
    s.drive is NotStarted && s.outbound is Some
}

/// What the drive loop delivers to the transport: exactly the queued
/// outbound messages, in enqueue order.
pub open spec fn drive_sent(s: SessionModel) -> Seq<OutboundMessage> {
    if s.outbound is Some {
        s.outbound->0.queue
    } else {
        Seq::empty()
    }
}

/// The drive loop observes end-of-input exactly when every producer
/// handle has been dropped.
pub open spec fn drive_end_of_input(s: SessionModel) -> bool {
    s.outbound is Some && s.outbound->0.producers == 0
}

/// Room left in the result-delivery channel.
pub open spec fn drive_room(s: SessionModel) -> nat {
    if s.results is Some {
        (s.results->0.capacity - s.results->0.queue.len()) as nat
    } else {
        0nat
    }
}

/// How many of `n` inbound messages the drive loop can forward before
/// backpressure suspends it. Without a result channel nothing is
/// forwarded (messages are dropped, as when no delivery was requested).
pub open spec fn drive_forward_count(s: SessionModel, n: nat) -> nat {
    if s.results is Some {
        if n <= drive_room(s) {
            n
        } else {
            drive_room(s)
        }
    } else {
        0nat
    }
}

/// The drive loop stalls when more inbound messages arrive than the
/// result channel has room for while nobody drains it.
pub open spec fn drive_stalled(s: SessionModel, n: nat) -> bool {
    s.results is Some && n > drive_room(s)
}

/// The result channel after the drive forwarded `delivered`: appended in
/// receipt order, earlier deliveries never retracted.
pub open spec fn drive_results_post(
    s: SessionModel,
    delivered: Seq<InboundMessage>,
) -> Option<ChannelModel<InboundMessage>> {
    if s.results is Some {
        Some(ChannelModel { queue: s.results->0.queue + delivered, ..s.results->0 })
    } else {
        None
    }
}

/// The session after a drive that the transport accepted: the outbound
/// queue is consumed exactly once; the drive is `Running` while suspended
/// on a full result channel and `Finished` otherwise, carrying whether
/// the remote half-closed cleanly.
pub open spec fn drive_post(
    s: SessionModel,
    responses: Seq<InboundMessage>,
    end: StreamEnd,
) -> SessionModel {
    SessionModel {
        outbound: None,
        drive: if drive_stalled(s, responses.len()) {
            DriveState::Running
        } else {
            DriveState::Finished(end is Closed)
        },
        results: drive_results_post(s, responses.take(drive_forward_count(s, responses.len()) as int)),
        ..s
    }
}

/// The session a streaming factory hands out: the configuration message
/// is already the sole queued outbound item, the session holds the one
/// producer handle, and the drive has not started.
pub open spec fn fresh_streaming_model(
    transport_id: int,
    config: RecognitionConfig,
    cap: nat,
) -> SessionModel {
    SessionModel {
        transport_id,
        outbound: Some(
            ChannelModel {
                capacity: cap,
                queue: seq![OutboundMessage::Configuration(config)],
                producers: 1nat,
                consumer_live: true,
            },
        ),
        holds_sink: true,
        results: None,
        generation: 0,
        drive: DriveState::NotStarted,
    }
}

/// A session without streaming state, for single request/response use.
pub open spec fn basic_model(transport_id: int) -> SessionModel {
    SessionModel {
        transport_id,
        outbound: None,
        holds_sink: false,
        results: None,
        generation: 0,
        drive: DriveState::NotStarted,
    }
}

/// What one completed (or suspended) drive reports.
#[derive(Debug)]
pub struct DriveReport {
    /// Whether a call was issued at all; a repeated drive reports `false`.
    pub attempted: bool,
    /// The outbound messages delivered to the transport, in enqueue order.
    pub sent: Vec<OutboundMessage>,
    /// Whether the outbound sequence terminated: every producer handle
    /// was dropped. While a handle lives the remote keeps waiting for
    /// data (the idle-input failure mode).
    pub end_of_input: bool,
    /// How many inbound messages went onto the result channel.
    pub forwarded: usize,
    /// Whether the drive suspended on a full result channel.
    pub stalled: bool,
}

/// What one pull-style drive yields: the report, the inbound messages in
/// receipt order, and the fault that ended the stream, if one did.
#[derive(Debug)]
pub struct PullOutcome {
    pub report: DriveReport,
    pub yielded: Vec<InboundMessage>,
    pub fault: Option<Error>,
}

/// The streaming session.
#[derive(Debug)]
pub struct Recognizer {
    transport: TransportChannel,
    outbound: Option<BoundedChannel<OutboundMessage>>,
    holds_sink: bool,
    results: Option<BoundedChannel<InboundMessage>>,
    result_generation: u64,
    drive_state: DriveState,
}

impl Recognizer {
    pub closed spec fn model(&self) -> SessionModel {
        SessionModel {
            transport_id: self.transport.id as int,
            outbound: match self.outbound {
                Option::Some(c) => Some(c.model()),
                Option::None => None,
            },
            holds_sink: self.holds_sink,
            results: match self.results {
                Option::Some(c) => Some(c.model()),
                Option::None => None,
            },
            generation: self.result_generation as int,
            drive: self.drive_state,
        }
    }

    pub open spec fn wf(&self) -> bool {
        session_wf(self.model())
    }

    /// A session for single request/response calls: no streaming state.
    pub fn create_synchronous_recognizer(transport: TransportChannel) -> (r: Recognizer)
        ensures
            r.wf(),
            r.model() == basic_model(transport.id as int),
    {
        let r = Recognizer {
            transport,
            outbound: None,
            holds_sink: false,
            results: None,
            result_generation: 0,
            drive_state: DriveState::NotStarted,
        };
        proof {
            assert(r.model() =~= basic_model(transport.id as int));
        }
        r
    }

    /// A session for long-running non-streaming recognition: the same
    /// shape as the synchronous one, kept as its own entry point.
    pub fn create_asynchronous_recognizer(transport: TransportChannel) -> (r: Recognizer)
        ensures
            r.wf(),
            r.model() == basic_model(transport.id as int),
    {
        Recognizer::create_synchronous_recognizer(transport)
    }

    /// Transfers the session's own producer handle to the caller, or
    /// nothing if it was already taken. After this only caller-held
    /// handles remain, so dropping them all closes the outbound queue.
    pub fn take_audio_sink(&mut self) -> (r: Option<AudioSink>)
        requires
            old(self).wf(),
        ensures
            final(self).wf(),
            r is Some <==> old(self).model().holds_sink,
            final(self).model() == take_sink_post(old(self).model()),
    {
        let ghost s = self.model();
        let r = if self.holds_sink {
            self.holds_sink = false;
            Some(AudioSink {})
        } else {
            None
        };
        proof {
            assert(self.model() =~= take_sink_post(s));
        }
        r
    }

    /// Hands out an additional producer handle while keeping the
    /// session's own reference: useful for fan-in, but the live session
    /// reference prevents closure, so this alone cannot signal
    /// end-of-input.
    pub fn get_audio_sink(&mut self) -> (r: Option<AudioSink>)
        requires
            old(self).wf(),
            (old(self).model().holds_sink && old(self).model().outbound is Some) ==> old(
                self,
            ).model().outbound->0.producers < usize::MAX,
        ensures
            final(self).wf(),
            r is Some <==> old(self).model().holds_sink,
            final(self).model() == clone_sink_post(old(self).model()),
    {
        let ghost s = self.model();
        if self.holds_sink {
            match &mut self.outbound {
                Some(c) => {
                    c.add_sender();
                }
                None => {}
            }
            proof {
                assert(self.model() =~= clone_sink_post(s));
            }
            Some(AudioSink {})
        } else {
            proof {
                assert(self.model() =~= clone_sink_post(s));
            }
            None
        }
    }

    /// Drops the session's own producer handle so the outbound queue can
    /// close once caller-held handles are gone.
    pub fn drop_audio_sink(&mut self)
        requires
            old(self).wf(),
        ensures
            final(self).wf(),
            final(self).model() == drop_sink_post(old(self).model()),
    {
        let ghost s = self.model();
        if self.holds_sink {
            self.holds_sink = false;
            match &mut self.outbound {
                Some(c) => {
                    c.drop_sender();
                }
                None => {}
            }
        }
        proof {
            assert(self.model() =~= drop_sink_post(s));
        }
    }

    /// A caller-held producer handle is dropped. Releases beyond the
    /// handles given out are ignored.
    pub fn release_audio_sink(&mut self, _sink: AudioSink)
        requires
            old(self).wf(),
        ensures
            final(self).wf(),
            final(self).model() == release_sink_post(old(self).model()),
    {
        let ghost s = self.model();
        let floor: usize = if self.holds_sink {
            1
        } else {
            0
        };
        match &mut self.outbound {
            Some(c) => {
                if c.sender_count() > floor {
                    c.drop_sender();
                }
            }
            None => {}
        }
        proof {
            assert(self.model() =~= release_sink_post(s));
        }
    }

    /// Enqueues one outbound message through a producer handle. Refused
    /// with the item handed back when the queue is full (the sending task
    /// suspends) or when the drive loop already consumed the queue (a
    /// terminal condition).
    pub fn send_audio(&mut self, _sink: &AudioSink, message: OutboundMessage) -> (r: SendOutcome<
        OutboundMessage,
    >)
        requires
            old(self).wf(),
        ensures
            final(self).wf(),
            old(self).model().outbound is None ==> (r == SendOutcome::Closed(message)
                && final(self).model() == old(self).model()),
            send_audio_accepted(old(self).model()) ==> (r is Sent && final(self).model()
                == send_audio_post(old(self).model(), message)),
            (old(self).model().outbound is Some && !send_audio_accepted(old(self).model())) ==> (r
                == SendOutcome::WouldBlock(message) && final(self).model() == old(self).model()),
    {
        let ghost s = self.model();
        match &mut self.outbound {
            Some(c) => {
                let r = c.try_send(message);
                proof {
                    if send_audio_accepted(s) {
                        assert(self.model() =~= send_audio_post(s, message));
                    } else {
                        assert(self.model() =~= s);
                    }
                }
                r
            }
            None => SendOutcome::Closed(message),
        }
    }

    /// Wraps raw audio bytes as an outbound data chunk.
    pub fn streaming_request_from_bytes(audio_bytes: Vec<u8>) -> (r: OutboundMessage)
        ensures
            r == OutboundMessage::DataChunk(audio_bytes),
    {
        OutboundMessage::DataChunk(audio_bytes)
    }

    /// Creates a fresh bounded result-delivery channel and returns the
    /// receiver handle of its generation. Calling this again replaces the
    /// channel: the earlier receiver observes nothing further.
    pub fn get_streaming_result_receiver(&mut self, buffer_size: Option<usize>) -> (r:
        ResultReceiver)
        requires
            old(self).wf(),
            old(self).model().generation < u64::MAX,
        ensures
            final(self).wf(),
            final(self).model() == result_delivery_post(
                old(self).model(),
                chosen_capacity(buffer_size),
            ),
            r.generation as int == final(self).model().generation,
    {
        let ghost s = self.model();
        let cap: usize = match buffer_size {
            Some(c) => c,
            None => DEFAULT_CAPACITY,
        };
        self.results = Some(BoundedChannel::new(cap));
        self.result_generation = self.result_generation + 1;
        proof {
            assert(self.model() =~= result_delivery_post(s, chosen_capacity(buffer_size)));
        }
        ResultReceiver { generation: self.result_generation }
    }

    /// Reads one inbound message through a receiver handle. A handle of a
    /// superseded generation observes nothing further; the current handle
    /// sees the messages in receipt order, or suspends while the channel
    /// is empty and the session still holds the sender.
    pub fn recv_result(&mut self, receiver: &ResultReceiver) -> (r: RecvOutcome<InboundMessage>)
        requires
            old(self).wf(),
        ensures
            final(self).wf(),
            receiver.generation as int != old(self).model().generation ==> (r is Disconnected
                && final(self).model() == old(self).model()),
            (receiver.generation as int == old(self).model().generation && old(
                self,
            ).model().results is None) ==> (r is Disconnected && final(self).model() == old(
                self,
            ).model()),
            (receiver.generation as int == old(self).model().generation && old(
                self,
            ).model().results is Some) ==> ({
                let rc = old(self).model().results->0;
                &&& rc.queue.len() > 0 ==> (r == RecvOutcome::Received(rc.queue[0])
                    && final(self).model() == (SessionModel {
                        results: Some(recv_post(rc)),
                        ..old(self).model()
                    }))
                &&& rc.queue.len() == 0 ==> (r is WouldBlock && final(self).model() == old(
                    self,
                ).model())
            }),
    {
        let ghost s = self.model();
        if receiver.generation != self.result_generation {
            return RecvOutcome::Disconnected;
        }
        match &mut self.results {
            Some(rc) => {
                let r = rc.try_recv();
                proof {
                    if s.results->0.queue.len() > 0 {
                        assert(self.model() =~= (SessionModel {
                            results: Some(recv_post(s.results->0)),
                            ..s
                        }));
                    } else {
                        assert(self.model() =~= s);
                    }
                }
                r
            }
            None => RecvOutcome::Disconnected,
        }
    }

    /// Drains an outbound queue the drive loop took ownership of: yields
    /// every queued message in order, and reports whether end-of-input
    /// was observed (all producer handles gone) rather than a suspension
    /// awaiting more data.
    fn drain_outbound(chan: BoundedChannel<OutboundMessage>) -> (r: (Vec<OutboundMessage>, bool))
        requires
            chan.wf(),
        ensures
            r.0@ == chan.model().queue,
            r.1 <==> chan.model().producers == 0,
    {
        let ghost och = chan.model();
        let mut chan = chan;
        let mut sent: Vec<OutboundMessage> = Vec::new();
        let mut end_of_input = false;
        let mut drained = false;
        proof {
            assert(sent@ + chan.model().queue =~= och.queue);
        }
        while !drained
            invariant
                chan.wf(),
                chan.model().producers == och.producers,
                sent@ + chan.model().queue == och.queue,
                drained ==> chan.model().queue.len() == 0 && (end_of_input <==> och.producers
                    == 0),
            decreases chan.model().queue.len() as int + (if drained {
                0int
            } else {
                1int
            }),
        {
            let ghost q_pre = chan.model().queue;
            let ghost sent_pre = sent@;
            match chan.try_recv() {
                RecvOutcome::Received(m) => {
                    sent.push(m);
                    proof {
                        assert(sent@ =~= sent_pre.push(q_pre[0]));
                        assert(sent@ + chan.model().queue =~= och.queue);
                    }
                }
                RecvOutcome::WouldBlock => {
                    end_of_input = false;
                    drained = true;
                }
                RecvOutcome::Disconnected => {
                    end_of_input = true;
                    drained = true;
                }
            }
        }
        proof {
            assert(sent@ =~= och.queue);
        }
        (sent, end_of_input)
    }

    /// Drives the duplex call once, forwarding inbound messages to the
    /// result channel: consumes the outbound queue (exactly once — called
    /// again it is a no-op reporting no attempt), delivers the queued
    /// outbound messages to the transport in enqueue order, then forwards
    /// each scripted inbound message in receipt order until the bounded
    /// result channel is full (backpressure: the drive suspends and stays
    /// `Running`). A transport fault ends the drive with an error;
    /// messages already forwarded are not retracted.
    pub fn streaming_recognize(
        &mut self,
        call_accepted: bool,
        responses: Vec<InboundMessage>,
        end: StreamEnd,
    ) -> (r: Result<DriveReport, Error>)
        requires
            old(self).wf(),
        ensures
            final(self).wf(),
            !drive_ready(old(self).model()) ==> (r matches Ok(rep) && !rep.attempted && rep.sent@
                == Seq::<OutboundMessage>::empty() && !rep.end_of_input && rep.forwarded == 0
                && !rep.stalled && final(self).model() == old(self).model()),
            (drive_ready(old(self).model()) && !call_accepted) ==> (r matches Err(e) && e.kind
                == Some(ErrorKind::TransportError) && final(self).model() == (SessionModel {
                outbound: None,
                drive: DriveState::Finished(false),
                ..old(self).model()
            })),
            (drive_ready(old(self).model()) && call_accepted) ==> ({
                let s = old(self).model();
                let n = responses@.len();
                &&& final(self).model() == drive_post(s, responses@, end)
                &&& (r is Ok <==> (drive_stalled(s, n) || end is Closed))
                &&& (r matches Ok(rep) ==> (rep.attempted && rep.sent@ == drive_sent(s)
                    && (rep.end_of_input <==> drive_end_of_input(s)) && rep.forwarded
                    == drive_forward_count(s, n) && (rep.stalled <==> drive_stalled(s, n))))
                &&& (r matches Err(e) ==> e.kind == Some(ErrorKind::TransportError))
            }),
    {
        let ghost s = self.model();
        if !(self.drive_state == DriveState::NotStarted) || self.outbound.is_none() {
            let rep = DriveReport {
                attempted: false,
                sent: Vec::new(),
                end_of_input: false,
                forwarded: 0,
                stalled: false,
            };
            proof {
                assert(rep.sent@ =~= Seq::<OutboundMessage>::empty());
            }
            return Ok(rep);
        }
        self.drive_state = DriveState::Running;
        let chan = self.outbound.take().unwrap();
        if !call_accepted {
            self.drive_state = DriveState::Finished(false);
            proof {
                assert(self.model() =~= (SessionModel {
                    outbound: None,
                    drive: DriveState::Finished(false),
                    ..s
                }));
            }
            return Err(
                Error::with_kind(ErrorKind::TransportError, "duplex call refused".to_owned()),
            );
        }
        let (sent, end_of_input) = Recognizer::drain_outbound(chan);
        let ghost all = responses@;
        let mut pending = responses;
        let total = pending.len();
        proof {
            assert(all.len() == total);
        }
        let mut fwd: usize = 0;
        let mut stalled = false;
        match &mut self.results {
            Some(rc) => {
                let ghost rc0 = rc.model();
                proof {
                    assert(rc.model().queue =~= rc0.queue + all.take(0));
                }
                while pending.len() > 0 && !stalled
                    invariant
                        rc.wf(),
                        rc0.consumer_live,
                        rc.model().capacity == rc0.capacity,
                        rc.model().producers == rc0.producers,
                        rc.model().consumer_live == rc0.consumer_live,
                        all.len() == total,
                        fwd <= all.len(),
                        rc.model().queue == rc0.queue + all.take(fwd as int),
                        rc.model().queue.len() == rc0.queue.len() + fwd,
                        !stalled ==> pending@ == all.skip(fwd as int),
                        !stalled ==> fwd + pending@.len() == all.len(),
                        stalled ==> rc0.queue.len() + fwd == rc0.capacity && fwd < all.len(),
                    decreases pending@.len(),
                {
                    let ghost q_pre = rc.model().queue;
                    let m = pending.remove(0);
                    proof {
                        assert(all.skip(fwd as int)[0] == all[fwd as int]);
                        assert(pending@ =~= all.skip(fwd as int + 1));
                    }
                    match rc.try_send(m) {
                        SendOutcome::Sent => {
                            fwd = fwd + 1;
                            proof {
                                assert(rc.model().queue =~= q_pre.push(all[fwd as int - 1]));
                                assert(rc.model().queue =~= rc0.queue + all.take(fwd as int));
                            }
                        }
                        SendOutcome::WouldBlock(_) => {
                            stalled = true;
                        }
                        SendOutcome::Closed(_) => {
                            proof {
                                assert(false);
                            }
                            stalled = true;
                        }
                    }
                }
                proof {
                    if !stalled {
                        assert(fwd == all.len());
                        assert(fwd <= drive_room(s)) by {
                            assert(rc.model().queue.len() <= rc0.capacity);
                        }
                        assert(fwd == drive_forward_count(s, all.len()));
                        assert(!drive_stalled(s, all.len()));
                    } else {
                        assert(fwd == drive_room(s));
                        assert(fwd == drive_forward_count(s, all.len()));
                        assert(drive_stalled(s, all.len()));
                    }
                }
            }
            None => {
                proof {
                    assert(drive_forward_count(s, all.len()) == 0);
                    assert(!drive_stalled(s, all.len()));
                }
            }
        }
        if stalled {
            proof {
                assert(self.model() =~= drive_post(s, all, end));
            }
            return Ok(
                DriveReport { attempted: true, sent, end_of_input, forwarded: fwd, stalled: true },
            );
        }
        match end {
            StreamEnd::Closed => {
                self.drive_state = DriveState::Finished(true);
                proof {
                    assert(self.model() =~= drive_post(s, all, end));
                }
                Ok(
                    DriveReport {
                        attempted: true,
                        sent,
                        end_of_input,
                        forwarded: fwd,
                        stalled: false,
                    },
                )
            }
            StreamEnd::Fault(msg) => {
                self.drive_state = DriveState::Finished(false);
                proof {
                    assert(self.model() =~= drive_post(s, all, end));
                }
                Err(Error::with_kind(ErrorKind::TransportError, msg))
            }
        }
    }

    /// Drives the duplex call once as a pull-style sequence: consumes the
    /// outbound queue (a repeated call yields an empty sequence), delivers
    /// the queued outbound messages in order, and yields every inbound
    /// message directly to the caller, with the transport fault, if any,
    /// as the terminal error. The result channel is not involved.
    pub fn streaming_recognize_async_stream(
        &mut self,
        call_accepted: bool,
        responses: Vec<InboundMessage>,
        end: StreamEnd,
    ) -> (r: PullOutcome)
        requires
            old(self).wf(),
        ensures
            final(self).wf(),
            !drive_ready(old(self).model()) ==> (!r.report.attempted && r.yielded@
                == Seq::<InboundMessage>::empty() && r.fault is None && final(self).model() == old(
                self,
            ).model()),
            (drive_ready(old(self).model()) && !call_accepted) ==> ({
                &&& r.report.attempted
                &&& r.yielded@ == Seq::<InboundMessage>::empty()
                &&& (r.fault matches Some(e) && e.kind == Some(ErrorKind::TransportError))
                &&& final(self).model() == (SessionModel {
                    outbound: None,
                    drive: DriveState::Finished(false),
                    ..old(self).model()
                })
            }),
            (drive_ready(old(self).model()) && call_accepted) ==> ({
                let s = old(self).model();
                &&& r.report.attempted
                &&& r.report.sent@ == drive_sent(s)
                &&& (r.report.end_of_input <==> drive_end_of_input(s))
                &&& r.report.forwarded == 0
                &&& !r.report.stalled
                &&& r.yielded@ == responses@
                &&& (r.fault is Some <==> end is Fault)
                &&& (r.fault matches Some(e) ==> e.kind == Some(ErrorKind::TransportError))
                &&& final(self).model() == (SessionModel {
                    outbound: None,
                    drive: DriveState::Finished(end is Closed),
                    ..s
                })
            }),
    {
        let ghost s = self.model();
        if !(self.drive_state == DriveState::NotStarted) || self.outbound.is_none() {
            let r = PullOutcome {
                report: DriveReport {
                    attempted: false,
                    sent: Vec::new(),
                    end_of_input: false,
                    forwarded: 0,
                    stalled: false,
                },
                yielded: Vec::new(),
                fault: None,
            };
            proof {
                assert(r.yielded@ =~= Seq::<InboundMessage>::empty());
            }
            return r;
        }
        self.drive_state = DriveState::Running;
        let chan = self.outbound.take().unwrap();
        if !call_accepted {
            self.drive_state = DriveState::Finished(false);
            proof {
                assert(self.model() =~= (SessionModel {
                    outbound: None,
                    drive: DriveState::Finished(false),
                    ..s
                }));
            }
            let r = PullOutcome {
                report: DriveReport {
                    attempted: true,
                    sent: Vec::new(),
                    end_of_input: false,
                    forwarded: 0,
                    stalled: false,
                },
                yielded: Vec::new(),
                fault: Some(
                    Error::with_kind(ErrorKind::TransportError, "duplex call refused".to_owned()),
                ),
            };
            proof {
                assert(r.yielded@ =~= Seq::<InboundMessage>::empty());
            }
            return r;
        }
        let (sent, end_of_input) = Recognizer::drain_outbound(chan);
        let fault = match end {
            StreamEnd::Closed => None,
            StreamEnd::Fault(msg) => Some(Error::with_kind(ErrorKind::TransportError, msg)),
        };
        let clean = fault.is_none();
        self.drive_state = DriveState::Finished(clean);
        proof {
            assert(self.model() =~= (SessionModel {
                outbound: None,
                drive: DriveState::Finished(end is Closed),
                ..s
            }));
        }
        PullOutcome {
            report: DriveReport {
                attempted: true,
                sent,
                end_of_input,
                forwarded: 0,
                stalled: false,
            },
            yielded: responses,
            fault,
        }
    }

    /// Maps the outcome of a single request/response call, independent of
    /// any streaming state: the session is left exactly as it was, in
    /// every drive state.
    pub fn recognize(&mut self, outcome: Result<InboundMessage, String>) -> (r: Result<
        InboundMessage,
        Error,
    >)
        requires
            old(self).wf(),
        ensures
            final(self).wf(),
            final(self).model() == old(self).model(),
            outcome matches Ok(m) ==> (r matches Ok(m2) && m2 == m),
            outcome matches Err(msg) ==> (r matches Err(e) && e.kind
                == Some(ErrorKind::TransportError) && e.message == msg),
    {
        match outcome {
            Ok(m) => Ok(m),
            Err(msg) => Err(Error::with_kind(ErrorKind::TransportError, msg)),
        }
    }
}

/// Where the factory stands: credentials are resolved strictly before any
/// transport connection is attempted.
#[derive(Debug)]
pub enum FactoryState {
    AwaitingCredentials,
    AwaitingTransport(AuthToken),
    Failed,
    Complete,
}

/// The single external step the factory asks for next.
#[derive(Clone, Copy, Debug, PartialEq, Eq, Structural)]
pub enum FactoryAction {
    ResolveCredentials,
    Connect,
    Halt,
}

/// Builds a streaming session step by step: resolve credentials, connect,
/// then enqueue the configuration message as the first outbound item —
/// atomically from the caller's view, since either a fully ready session
/// comes back or an error and no session.
#[derive(Debug)]
pub struct SessionFactory {
    pub config: RecognitionConfig,
    pub capacity: usize,
    pub state: FactoryState,
}

impl SessionFactory {
    /// Starts a factory run; the capacity defaults when not supplied.
    pub fn new(config: RecognitionConfig, buffer_size: Option<usize>) -> (r: SessionFactory)
        ensures
            r.config == config,
            r.capacity as nat == chosen_capacity(buffer_size),
            r.state is AwaitingCredentials,
    {
        let capacity: usize = match buffer_size {
            Some(c) => c,
            None => DEFAULT_CAPACITY,
        };
        SessionFactory { config, capacity, state: FactoryState::AwaitingCredentials }
    }

    /// Which external step must happen next. A connection is asked for
    /// only after credentials resolved: a factory that failed at the
    /// credential step never observes a connection attempt.
    pub fn next_action(&self) -> (r: FactoryAction)
        ensures
            r is ResolveCredentials <==> self.state is AwaitingCredentials,
            r is Connect <==> self.state is AwaitingTransport,
            r is Halt <==> (self.state is Failed || self.state is Complete),
    {
        match &self.state {
            FactoryState::AwaitingCredentials => FactoryAction::ResolveCredentials,
            FactoryState::AwaitingTransport(_) => FactoryAction::Connect,
            FactoryState::Failed => FactoryAction::Halt,
            FactoryState::Complete => FactoryAction::Halt,
        }
    }

    /// Feeds in the outcome of credential resolution. A failure is a
    /// `ConfigurationError` and halts the factory before any connection
    /// is asked for.
    pub fn supply_credentials(&mut self, outcome: Result<AuthToken, String>) -> (r: Result<
        (),
        Error,
    >)
        requires
            old(self).state is AwaitingCredentials,
        ensures
            final(self).config == old(self).config,
            final(self).capacity == old(self).capacity,
            outcome matches Ok(t) ==> (r is Ok && final(self).state
                == FactoryState::AwaitingTransport(t)),
            outcome matches Err(msg) ==> (r matches Err(e) && e.kind
                == Some(ErrorKind::ConfigurationError) && e.message == msg && final(self).state
                is Failed),
    {
        match outcome {
            Ok(t) => {
                self.state = FactoryState::AwaitingTransport(t);
                Ok(())
            }
            Err(msg) => {
                self.state = FactoryState::Failed;
                Err(Error::with_kind(ErrorKind::ConfigurationError, msg))
            }
        }
    }

    /// Feeds in the outcome of the connection attempt. On success the
    /// session comes back fully ready: the configuration message is
    /// already the first queued outbound item. A zero capacity makes that
    /// initial enqueue impossible and fails the construction; with the
    /// default capacity this cannot happen.
    pub fn supply_transport(&mut self, outcome: Result<TransportChannel, String>) -> (r: Result<
        Recognizer,
        Error,
    >)
        requires
            old(self).state is AwaitingTransport,
        ensures
            final(self).config == old(self).config,
            final(self).capacity == old(self).capacity,
            outcome matches Err(msg) ==> (r matches Err(e) && e.kind
                == Some(ErrorKind::TransportError) && e.message == msg && final(self).state
                is Failed),
            outcome matches Ok(ch) ==> {
                &&& old(self).capacity >= 1 ==> (r matches Ok(rec) && rec.wf() && rec.model()
                    == fresh_streaming_model(
                    ch.id as int,
                    old(self).config,
                    old(self).capacity as nat,
                ) && final(self).state is Complete)
                &&& old(self).capacity == 0 ==> (r matches Err(e) && e.kind
                    == Some(ErrorKind::ConfigurationError) && final(self).state is Failed)
            },
    {
        match outcome {
            Err(msg) => {
                self.state = FactoryState::Failed;
                Err(Error::with_kind(ErrorKind::TransportError, msg))
            }
            Ok(ch) => {
                if self.capacity == 0 {
                    self.state = FactoryState::Failed;
                    Err(
                        Error::with_kind(
                            ErrorKind::ConfigurationError,
                            "capacity 0 cannot hold the configuration message".to_owned(),
                        ),
                    )
                } else {
                    let mut chan: BoundedChannel<OutboundMessage> = BoundedChannel::new(
                        self.capacity,
                    );
                    match chan.try_send(OutboundMessage::Configuration(self.config)) {
                        SendOutcome::Sent => {
                            let rec = Recognizer {
                                transport: ch,
                                outbound: Some(chan),
                                holds_sink: true,
                                results: None,
                                result_generation: 0,
                                drive_state: DriveState::NotStarted,
                            };
                            self.state = FactoryState::Complete;
                            proof {
                                assert(rec.model() =~= fresh_streaming_model(
                                    ch.id as int,
                                    old(self).config,
                                    old(self).capacity as nat,
                                ));
                            }
                            Ok(rec)
                        }
                        SendOutcome::WouldBlock(_) => {
                            proof {
                                assert(false);
                            }
                            self.state = FactoryState::Failed;
                            Err(
                                Error::with_kind(
                                    ErrorKind::ConfigurationError,
                                    "initial enqueue failed".to_owned(),
                                ),
                            )
                        }
                        SendOutcome::Closed(_) => {
                            proof {
                                assert(false);
                            }
                            self.state = FactoryState::Failed;
                            Err(
                                Error::with_kind(
                                    ErrorKind::ConfigurationError,
                                    "initial enqueue failed".to_owned(),
                                ),
                            )
                        }
                    }
                }
            }
        }
    }
}

} // verus!
