//! The general properties of the bridge and the session, stated over the
//! same spec functions the executable contracts use, and proved once for
//! all inputs.
use crate::bridge::ChannelModel;
use crate::bridge::recv_post;
use crate::bridge::send_accepted;
use crate::bridge::send_post;
use crate::messages::OutboundMessage;
use crate::messages::RecognitionConfig;
use crate::session::DriveState;
use crate::session::SessionModel;
use crate::session::drive_end_of_input;
use crate::session::drive_ready;
use crate::session::drive_sent;
use crate::session::release_sink_post;
use crate::session::result_delivery_post;
use crate::session::sink_floor;
use crate::session::take_sink_post;
use vstd::prelude::*;

verus! {

/// The queue after the items are enqueued one by one, in order — the shape
/// a caller's send loop leaves the outbound queue in when every send was
/// accepted.
pub open spec fn enqueue_all<T>(q: Seq<T>, items: Seq<T>) -> Seq<T>
    decreases items.len(),
{
    if items.len() == 0 {
        q
    } else {
        enqueue_all(q.push(items.first()), items.drop_first())
    }
}

/// Enqueueing one by one appends: no reordering and no loss.
pub proof fn lemma_enqueue_all_appends<T>(q: Seq<T>, items: Seq<T>)
    ensures
        enqueue_all(q, items) == q + items,
    decreases items.len(),
{
    if items.len() == 0 {
        assert(enqueue_all(q, items) =~= q + items);
    } else {
        lemma_enqueue_all_appends(q.push(items.first()), items.drop_first());
        assert(q.push(items.first()) + items.drop_first() =~= q + items);
    }
}

/// Order preservation: for every sequence of data messages enqueued one by
/// one after the factory queued the configuration message, the drive loop
/// delivers exactly the configuration message followed by exactly those
/// messages, in that order.
pub proof fn lemma_outbound_order(
    s: SessionModel,
    config: RecognitionConfig,
    chunks: Seq<OutboundMessage>,
)
    requires
        drive_ready(s),
        s.outbound->0.queue == enqueue_all(
            seq![OutboundMessage::Configuration(config)],
            chunks,
        ),
    ensures
        drive_sent(s).len() == 1 + chunks.len(),
        drive_sent(s).first() == OutboundMessage::Configuration(config),
        forall|i: int| 0 <= i < chunks.len() ==> drive_sent(s)[i + 1] == chunks[i],
{
    lemma_enqueue_all_appends(seq![OutboundMessage::Configuration(config)], chunks);
}

/// Closing by ownership transfer: taking the sole producer handle out and
/// then releasing it leaves no producer handle alive, so the drive loop
/// observes end-of-input rather than waiting for more data.
pub proof fn lemma_take_then_release_ends_input(s: SessionModel)
    requires
        s.outbound is Some,
        s.outbound->0.producers == 1,
        s.holds_sink,
    ensures
        drive_end_of_input(release_sink_post(take_sink_post(s))),
{
}

/// The idle-input failure mode: after handing out a clone while the
/// session keeps its own reference, releasing the caller's clone leaves
/// the session's handle alive, and the drive loop does not observe
/// end-of-input.
pub proof fn lemma_clone_alone_never_ends_input(s: SessionModel)
    requires
        s.outbound is Some,
        s.holds_sink,
        s.outbound->0.producers >= 1,
    ensures
        !drive_end_of_input(release_sink_post(s)),
{
    assert(sink_floor(s) == 1);
}

/// The drive runs at most once: any session whose drive has started (it
/// is running or finished, and the outbound queue is consumed) is not
/// ready to drive, so a second invocation is the contract's no-op.
pub proof fn lemma_drive_consumed_once(s: SessionModel)
    requires
        s.drive is Running || s.drive is Finished,
        s.outbound is None,
    ensures
        !drive_ready(s),
{
}

/// Replacing the result delivery: after a second creation the first
/// receiver's generation is superseded (it observes nothing further) and
/// the current channel starts empty, so no message is duplicated across
/// the two receivers.
pub proof fn lemma_result_delivery_replaced(s: SessionModel, cap_a: nat, cap_b: nat)
    ensures
        ({
            let s1 = result_delivery_post(s, cap_a);
            let s2 = result_delivery_post(s1, cap_b);
            &&& s1.generation != s2.generation
            &&& s2.results is Some
            &&& s2.results->0.queue == Seq::<crate::messages::InboundMessage>::empty()
            &&& s2.drive == s.drive
            &&& s2.outbound == s.outbound
        }),
{
}

/// Backpressure: a channel of capacity C that holds C items refuses the
/// next send (the producer suspends), and accepts it again as soon as the
/// consumer advances by one receive.
pub proof fn lemma_backpressure<T>(m: ChannelModel<T>, x: T)
    requires
        m.consumer_live,
        m.queue.len() == m.capacity,
        m.capacity >= 1,
    ensures
        !send_accepted(m),
        send_accepted(recv_post(m)),
        send_post(recv_post(m), x).queue == m.queue.drop_first().push(x),
{
}

/// A drive that was never made ready (the session has no outbound queue)
/// stays a no-op whatever its drive state, the degenerate case of the
/// at-most-once rule.
pub proof fn lemma_no_queue_no_drive(s: SessionModel)
    requires
        s.outbound is None,
    ensures
        !drive_ready(s),
        drive_sent(s) == Seq::<OutboundMessage>::empty(),
{
}

/// Entering the drive is only possible from `NotStarted`: the ready
/// predicate the drive contract is guarded by excludes every other state.
pub proof fn lemma_drive_entered_only_from_not_started(s: SessionModel)
    requires
        drive_ready(s),
    ensures
        s.drive == DriveState::NotStarted,
{
}

} // verus!
