//! Event fan-out registry.
//!
//! Lifecycle events are broadcast to any number of independently registered
//! subscribers over unbounded channels. Registering creates a fresh channel
//! and stores its sender; publishing sends a shared copy of the event to
//! every stored sender and lazily prunes, without erroring, each sender
//! whose receiver is already gone. A given subscriber observes events in
//! exactly the order they were published; nothing is guaranteed across
//! distinct subscribers.

use vstd::prelude::*;

use crate::track::{RemoteVideoTrack, Sid, TrackView};
use futures::channel::mpsc;
use std::sync::Arc;

verus! {

/// A track-subscription lifecycle event, shared and read-only once
/// published.
pub enum RemoteVideoTrackUpdate {
    Subscribed(Arc<RemoteVideoTrack>),
    Unsubscribed { publisher_id: Sid, track_id: Sid },
}

/// Mathematical content of a lifecycle event.
#[verifier::ext_equal]
pub ghost enum UpdateView {
    Subscribed(TrackView),
    Unsubscribed { publisher_id: Seq<char>, track_id: Seq<char> },
}

impl View for RemoteVideoTrackUpdate {
    type V = UpdateView;

    open spec fn view(&self) -> UpdateView {
        match self {
            RemoteVideoTrackUpdate::Subscribed(track) => UpdateView::Subscribed(track@),
            RemoteVideoTrackUpdate::Unsubscribed { publisher_id, track_id } => {
                UpdateView::Unsubscribed { publisher_id: publisher_id@, track_id: track_id@ }
            },
        }
    }
}

/// The sending half of one subscriber's channel.
pub type UpdateSender = mpsc::UnboundedSender<RemoteVideoTrackUpdate>;

/// The receiving half returned to a subscriber.
pub type UpdateReceiver = mpsc::UnboundedReceiver<RemoteVideoTrackUpdate>;

/// futures' `mpsc::UnboundedSender`, opaque to the verifier.
#[verifier::external_type_specification]
#[verifier::external_body]
#[verifier::reject_recursive_types(T)]
pub struct ExUnboundedSender<T>(mpsc::UnboundedSender<T>);

/// futures' `mpsc::UnboundedReceiver`, opaque to the verifier.
#[verifier::external_type_specification]
#[verifier::external_body]
#[verifier::reject_recursive_types(T)]
pub struct ExUnboundedReceiver<T>(mpsc::UnboundedReceiver<T>);

/// Everything sent through this sender so far, in send order: what its
/// subscriber's channel holds.
pub uninterp spec fn sent_updates(tx: UpdateSender) -> Seq<UpdateView>;

/// Relies on futures' `mpsc::unbounded`: creates a fresh channel pair on
/// which nothing has been sent yet.
#[verifier::external_body]
pub(crate) fn update_channel() -> (pair: (UpdateSender, UpdateReceiver))
    ensures
        sent_updates(pair.0) == Seq::<UpdateView>::empty(),
{
    mpsc::unbounded()
}

/// Relies on futures' `mpsc::UnboundedSender::unbounded_send`: enqueues the
/// message for the paired receiver, after everything sent before it, and
/// fails exactly when the receiver is disconnected.
#[verifier::external_body]
pub(crate) fn send_update(tx: &mut UpdateSender, ev: RemoteVideoTrackUpdate) -> (ok: bool)
    ensures
        ok ==> sent_updates(*final(tx)) == sent_updates(*old(tx)).push(ev@),
        !ok ==> sent_updates(*final(tx)) == sent_updates(*old(tx)),
{
    tx.unbounded_send(ev).is_ok()
}

/// Relies on Arc's `clone`: the clone shares the same track.
#[verifier::external_body]
fn share_track(track: &Arc<RemoteVideoTrack>) -> (r: Arc<RemoteVideoTrack>)
    ensures
        r == *track,
{
    track.clone()
}

/// A fresh copy of an event, sharing the same track, for handing one copy to
/// each subscriber.
pub fn duplicate_update(ev: &RemoteVideoTrackUpdate) -> (r: RemoteVideoTrackUpdate)
    ensures
        r@ == ev@,
{
    match ev {
        RemoteVideoTrackUpdate::Subscribed(track) => {
            RemoteVideoTrackUpdate::Subscribed(share_track(track))
        },
        RemoteVideoTrackUpdate::Unsubscribed { publisher_id, track_id } => {
            RemoteVideoTrackUpdate::Unsubscribed {
                publisher_id: publisher_id.clone(),
                track_id: track_id.clone(),
            }
        },
    }
}

/// What each stored sender has delivered so far, in storage order.
pub open spec fn histories(subs: Seq<UpdateSender>) -> Seq<Seq<UpdateView>> {
    subs.map_values(|tx: UpdateSender| sent_updates(tx))
}

/// Effect of one publish on the subscribers' delivery histories: each
/// subscriber whose receiver is still alive keeps its place and gains the
/// event at the end of its history; each dead one is pruned.
pub open spec fn fanout_model(
    h: Seq<Seq<UpdateView>>,
    alive: Seq<bool>,
    ev: UpdateView,
) -> Seq<Seq<UpdateView>>
    decreases h.len(),
{
    if h.len() == 0 {
        Seq::empty()
    } else {
        let front = fanout_model(h.drop_last(), alive.drop_last(), ev);
        if alive[h.len() - 1] {
            front.push(h.last().push(ev))
        } else {
            front
        }
    }
}

/// Register a fresh subscriber: store the sender, hand the receiver back.
pub fn register(subs: &mut Vec<UpdateSender>) -> (rx: UpdateReceiver)
    ensures
        histories(final(subs)@) =~= histories(old(subs)@).push(Seq::empty()),
{
    let (tx, rx) = update_channel();
    subs.push(tx);
    rx
}

/// Send one shared copy of the event to every stored sender, pruning each
/// sender whose receiver is gone. Returns which subscribers were found
/// alive, position by position.
pub fn publish(subs: &mut Vec<UpdateSender>, ev: &RemoteVideoTrackUpdate) -> (alive: Ghost<
    Seq<bool>,
>)
    ensures
        alive@.len() == old(subs)@.len(),
        histories(final(subs)@) =~= fanout_model(histories(old(subs)@), alive@, ev@),
{
    let ghost orig: Seq<UpdateSender> = subs@;
    let mut kept: Vec<UpdateSender> = Vec::new();
    let ghost mut alive: Seq<bool> = Seq::empty();
    while subs.len() > 0
        invariant
            alive.len() + subs@.len() == orig.len(),
            subs@ =~= orig.skip(alive.len() as int),
            histories(kept@) =~= fanout_model(
                histories(orig.take(alive.len() as int)),
                alive,
                ev@,
            ),
        decreases subs@.len(),
    {
        let ghost n = alive.len() as int;
        let ghost prev_kept = kept@;
        let mut tx = subs.remove(0);
        assert(tx == orig[n]);
        let ok = send_update(&mut tx, duplicate_update(ev));
        if ok {
            kept.push(tx);
        }
        proof {
            let prev_alive = alive;
            alive = alive.push(ok);
            assert(alive.drop_last() =~= prev_alive);
            let taken = histories(orig.take(n + 1));
            assert(orig.take(n + 1).drop_last() =~= orig.take(n));
            assert(taken.drop_last() =~= histories(orig.take(n)));
            assert(taken.last() == sent_updates(orig[n]));
            assert(histories(kept@) =~= fanout_model(taken, alive, ev@));
            assert(subs@ =~= orig.skip(alive.len() as int));
        }
    }
    proof {
        assert(orig.take(alive.len() as int) =~= orig);
    }
    *subs = kept;
    Ghost(alive)
}

/// Every subscriber's receiver is alive.
pub open spec fn all_alive(n: nat) -> Seq<bool> {
    Seq::new(n, |i: int| true)
}

/// Effect of publishing a whole sequence of events, in order, with every
/// subscriber's receiver alive throughout.
pub open spec fn fanout_all(h: Seq<Seq<UpdateView>>, evs: Seq<UpdateView>) -> Seq<Seq<UpdateView>>
    decreases evs.len(),
{
    if evs.len() == 0 {
        h
    } else {
        fanout_all(fanout_model(h, all_alive(h.len()), evs[0]), evs.skip(1))
    }
}

/// One publish with every receiver alive appends the event to every
/// subscriber's history and prunes nobody.
pub proof fn lemma_fanout_model_live(h: Seq<Seq<UpdateView>>, ev: UpdateView)
    ensures
        fanout_model(h, all_alive(h.len()), ev).len() == h.len(),
        forall|i: int|
            0 <= i < h.len() ==> #[trigger] fanout_model(h, all_alive(h.len()), ev)[i] == h[i].push(
                ev,
            ),
    decreases h.len(),
{
    if h.len() > 0 {
        lemma_fanout_model_live(h.drop_last(), ev);
        assert(all_alive(h.len()).drop_last() =~= all_alive((h.len() - 1) as nat));
        assert(h.drop_last().len() == h.len() - 1);
    }
}

/// For every sequence of registrations followed by publishes: a subscriber
/// registered before the publishes, whose receiver stays alive, observes
/// exactly the published events, appended to its history in emission order.
pub proof fn law_fanout_delivery(h: Seq<Seq<UpdateView>>, evs: Seq<UpdateView>)
    ensures
        fanout_all(h, evs).len() == h.len(),
        forall|i: int| 0 <= i < h.len() ==> #[trigger] fanout_all(h, evs)[i] == h[i] + evs,
    decreases evs.len(),
{
    if evs.len() == 0 {
        assert forall|i: int| 0 <= i < h.len() implies #[trigger] fanout_all(h, evs)[i] == h[i]
            + evs by {
            assert(h[i] + evs =~= h[i]);
        }
    } else {
        let h1 = fanout_model(h, all_alive(h.len()), evs[0]);
        lemma_fanout_model_live(h, evs[0]);
        law_fanout_delivery(h1, evs.skip(1));
        assert forall|i: int| 0 <= i < h.len() implies #[trigger] fanout_all(h, evs)[i] == h[i]
            + evs by {
            assert(fanout_all(h, evs)[i] == h1[i] + evs.skip(1));
            assert(h1[i] == h[i].push(evs[0]));
            assert(h[i].push(evs[0]) + evs.skip(1) =~= h[i] + evs);
        }
    }
}

/// The histories of `n` subscribers that have just registered and been
/// delivered nothing yet.
pub open spec fn fresh_histories(n: nat) -> Seq<Seq<UpdateView>> {
    Seq::new(n, |k: int| Seq::empty())
}

/// For every sequence of registrations followed by publishes: each of the
/// `n` subscribers, fresh at registration and alive throughout, is delivered
/// exactly the published events, in emission order.
pub proof fn law_register_then_publish(n: nat, evs: Seq<UpdateView>)
    ensures
        fanout_all(fresh_histories(n), evs).len() == n,
        forall|i: int|
            0 <= i < n ==> #[trigger] fanout_all(fresh_histories(n), evs)[i] =~= evs,
{
    let h = fresh_histories(n);
    law_fanout_delivery(h, evs);
    assert forall|i: int| 0 <= i < n implies #[trigger] fanout_all(h, evs)[i] =~= evs by {
        assert(h[i] + evs =~= evs);
    }
}

/// A publish that finds exactly one subscriber's receiver dead prunes that
/// subscriber and only it: everyone before keeps its place, everyone after
/// moves up one, and each still observes the event.
pub proof fn law_prune_dead(h: Seq<Seq<UpdateView>>, alive: Seq<bool>, ev: UpdateView, j: int)
    requires
        alive.len() == h.len(),
        0 <= j < h.len(),
        !alive[j],
        forall|i: int| 0 <= i < h.len() && i != j ==> alive[i],
    ensures
        fanout_model(h, alive, ev).len() == h.len() - 1,
        forall|i: int|
            0 <= i < j ==> #[trigger] fanout_model(h, alive, ev)[i] == h[i].push(ev),
        forall|i: int|
            j <= i < h.len() - 1 ==> #[trigger] fanout_model(h, alive, ev)[i] == h[i + 1].push(ev),
    decreases h.len(),
{
    if j == h.len() - 1 {
        assert(alive.drop_last() =~= all_alive(h.drop_last().len()));
        lemma_fanout_model_live(h.drop_last(), ev);
    } else {
        law_prune_dead(h.drop_last(), alive.drop_last(), ev, j);
        assert(h.drop_last().len() == h.len() - 1);
    }
}

} // verus!
