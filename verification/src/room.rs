//! The session object and its delegate.
//!
//! A `Room` owns one native room handle, the ordered collection of
//! subscriber senders, and one `RoomDelegate`. The delegate owns the native
//! delegate object and stands for the weak back-reference to the room: the
//! room owns the delegate, so the reverse relation must never own, and it is
//! upgraded only transiently inside a trampoline invocation. Here that
//! transient upgrade is the `Option` slot the trampolines receive: `Some`
//! while the room is alive, `None` once it has been torn down.

use vstd::prelude::*;

use crate::completion::{completion_bridge, Completion, CompletionResolver};
use crate::fanout::{
    fanout_model, histories, publish, register, RemoteVideoTrackUpdate, UpdateReceiver,
    UpdateSender, UpdateView,
};
use crate::handle::{
    can_promote_all, can_retain, cycle_model, live, matching_tracks, promote_all, release_model,
    retain_model, AcquireRule, HandleWrapper, LayerModel, NativeLayer, TrackInfo,
};
use crate::track::{RemoteVideoTrack, TrackView};
use std::sync::Arc;

verus! {

/// Owner of the native delegate object. The raw weak back-reference the
/// native layer holds as the delegate's callback context lives exactly as
/// long as this wrapper; `teardown` reclaims both exactly once.
pub struct RoomDelegate {
    native_delegate: HandleWrapper,
}

impl RoomDelegate {
    /// The native delegate object's handle.
    pub closed spec fn native_id(&self) -> int {
        self.native_delegate.id()
    }

    /// Create the native delegate object (create rule: its single reference
    /// is owned by this wrapper) and register the trampolines with it.
    pub fn new(layer: &mut NativeLayer) -> (d: RoomDelegate)
        requires
            old(layer)@.counts.len() < usize::MAX,
        ensures
            final(layer)@ =~= (LayerModel { counts: old(layer)@.counts.push(1), ..old(layer)@ }),
            d.native_id() == old(layer)@.counts.len(),
            live(final(layer)@, d.native_id()),
    {
        let h = layer.new_object();
        let native_delegate = HandleWrapper::wrap(layer, h, AcquireRule::Create);
        RoomDelegate { native_delegate }
    }

    /// Tear the delegate down: release the native delegate object and
    /// reclaim the raw weak back-reference. Consumes the wrapper, so the
    /// transition happens exactly once.
    pub fn teardown(self, layer: &mut NativeLayer)
        requires
            live(old(layer)@, self.native_id()),
            old(layer)@.release_calls < u64::MAX,
        ensures
            final(layer)@ =~= release_model(old(layer)@, self.native_id()),
    {
        self.native_delegate.release(layer);
    }
}

/// The session: one native room handle, the subscriber collection, and the
/// delegate. Lives from construction until `close`.
pub struct Room {
    native_room: HandleWrapper,
    remote_video_track_subscribers: Vec<UpdateSender>,
    delegate: RoomDelegate,
}

impl Room {
    /// The native room object's handle.
    pub closed spec fn native_id(&self) -> int {
        self.native_room.id()
    }

    /// The native delegate object's handle.
    pub closed spec fn delegate_id(&self) -> int {
        self.delegate.native_id()
    }

    /// What each registered subscriber has been delivered so far, in
    /// registration order.
    pub closed spec fn subscriber_histories(&self) -> Seq<Seq<UpdateView>> {
        histories(self.remote_video_track_subscribers@)
    }

    /// Both native objects backing this room are alive.
    pub open spec fn owns(&self, m: LayerModel) -> bool {
        live(m, self.native_id()) && live(m, self.delegate_id())
    }

    /// Create a session: first the delegate object, then the room object
    /// built over it, with no subscriber registered yet.
    pub fn new(layer: &mut NativeLayer) -> (room: Room)
        requires
            old(layer)@.counts.len() + 2 <= usize::MAX,
        ensures
            final(layer)@ =~= (LayerModel {
                counts: old(layer)@.counts.push(1).push(1),
                ..old(layer)@
            }),
            room.delegate_id() == old(layer)@.counts.len(),
            room.native_id() == old(layer)@.counts.len() + 1,
            room.subscriber_histories() =~= Seq::<Seq<UpdateView>>::empty(),
            room.owns(final(layer)@),
    {
        let delegate = RoomDelegate::new(layer);
        let h = layer.new_object();
        let native_room = HandleWrapper::wrap(layer, h, AcquireRule::Create);
        Room { native_room, remote_video_track_subscribers: Vec::new(), delegate }
    }

    /// Issue an asynchronous connect against the native layer. The returned
    /// completion resolves once the native side fires the resolver, its
    /// failure annotated as a connect error; the resolver stands for the
    /// context pointer handed to the native entry point. The URL and token
    /// go to the native layer, which this model does not inspect.
    pub fn connect(&self, url: &str, token: &str) -> (bridge: (Completion, CompletionResolver))
        ensures
            bridge.0.context_view() == "error connecting to room"@,
    {
        let _ = url;
        let _ = token;
        completion_bridge("error connecting to room".to_owned())
    }

    /// Issue an asynchronous publish of a local track. The returned
    /// completion resolves once the native side fires the resolver, its
    /// failure annotated as a publish error.
    pub fn publish_video_track(&self, track: &crate::track::LocalVideoTrack) -> (bridge: (
        Completion,
        CompletionResolver,
    ))
        ensures
            bridge.0.context_view() == "error publishing video track"@,
    {
        let _ = track.handle();
        completion_bridge("error publishing video track".to_owned())
    }

    /// Query the native layer for the given participant's remote tracks and
    /// promote each borrow-rule handle into an independently owned wrapper.
    /// Zero matching tracks is not an error: the result is simply empty.
    pub fn remote_video_tracks(&self, layer: &mut NativeLayer, participant_id: &str) -> (tracks:
        Vec<Arc<RemoteVideoTrack>>)
        requires
            can_promote_all(
                old(layer)@,
                matching_tracks(old(layer)@.tracks, participant_id@).map_values(
                    |t: TrackInfo| t.handle,
                ),
            ),
        ensures
            final(layer)@ =~= promote_all(
                old(layer)@,
                matching_tracks(old(layer)@.tracks, participant_id@).map_values(
                    |t: TrackInfo| t.handle,
                ),
            ),
            tracks@.len() == matching_tracks(old(layer)@.tracks, participant_id@).len(),
            forall|i: int|
                0 <= i < tracks@.len() ==> {
                    let info = #[trigger] matching_tracks(old(layer)@.tracks, participant_id@)[i];
                    tracks@[i]@ =~= (TrackView {
                        handle: info.handle,
                        sid: info.sid,
                        publisher_id: participant_id@,
                    })
                },
    {
        let found = layer.video_tracks_for_participant(participant_id);
        let ghost matched = matching_tracks(old(layer)@.tracks, participant_id@);
        let ghost handles = matched.map_values(|t: TrackInfo| t.handle);
        let mut tracks: Vec<Arc<RemoteVideoTrack>> = Vec::new();
        let mut i: usize = 0;
        proof {
            assert(handles.skip(0) =~= handles);
        }
        while i < found.len()
            invariant
                i <= found@.len(),
                found@.len() == matched.len(),
                handles == matched.map_values(|t: TrackInfo| t.handle),
                forall|k: int|
                    0 <= k < found@.len() ==> {
                        let info = #[trigger] matched[k];
                        found@[k].0 as int == info.handle && found@[k].1@ == info.sid
                    },
                tracks@.len() == i,
                forall|k: int|
                    0 <= k < i ==> {
                        let info = #[trigger] matched[k];
                        tracks@[k]@ =~= (TrackView {
                            handle: info.handle,
                            sid: info.sid,
                            publisher_id: participant_id@,
                        })
                    },
                can_promote_all(layer@, handles.skip(i as int)),
                promote_all(layer@, handles.skip(i as int)) =~= promote_all(old(layer)@, handles),
            decreases found@.len() - i,
        {
            let (h, sid) = {
                let entry = &found[i];
                (entry.0, entry.1.clone())
            };
            proof {
                assert(handles.skip(i as int)[0] == handles[i as int]);
                assert(can_retain(layer@, h as int));
            }
            let track = RemoteVideoTrack::new(layer, h, sid, participant_id.to_owned());
            tracks.push(Arc::new(track));
            proof {
                assert(handles.skip(i as int).skip(1) =~= handles.skip(i as int + 1));
            }
            i = i + 1;
        }
        proof {
            assert(handles.skip(found@.len() as int) =~= Seq::<int>::empty());
        }
        tracks
    }

    /// Register a subscriber for lifecycle events: a fresh unbounded channel
    /// whose sender joins the collection and whose receiver is handed back.
    pub fn remote_video_track_updates(&mut self) -> (rx: UpdateReceiver)
        ensures
            final(self).subscriber_histories() =~= old(self).subscriber_histories().push(
                Seq::<UpdateView>::empty(),
            ),
            final(self).native_id() == old(self).native_id(),
            final(self).delegate_id() == old(self).delegate_id(),
    {
        register(&mut self.remote_video_track_subscribers)
    }

    /// Deliver a freshly subscribed track, shared, to every live subscriber,
    /// pruning the dead ones.
    pub fn did_subscribe_to_remote_video_track(&mut self, track: RemoteVideoTrack) -> (alive:
        Ghost<Seq<bool>>)
        ensures
            alive@.len() == old(self).subscriber_histories().len(),
            final(self).subscriber_histories() =~= fanout_model(
                old(self).subscriber_histories(),
                alive@,
                UpdateView::Subscribed(track@),
            ),
            final(self).native_id() == old(self).native_id(),
            final(self).delegate_id() == old(self).delegate_id(),
    {
        let shared = Arc::new(track);
        let ev = RemoteVideoTrackUpdate::Subscribed(shared);
        publish(&mut self.remote_video_track_subscribers, &ev)
    }

    /// Deliver an unsubscription notice to every live subscriber, pruning
    /// the dead ones.
    pub fn did_unsubscribe_from_remote_video_track(
        &mut self,
        publisher_id: String,
        track_id: String,
    ) -> (alive: Ghost<Seq<bool>>)
        ensures
            alive@.len() == old(self).subscriber_histories().len(),
            final(self).subscriber_histories() =~= fanout_model(
                old(self).subscriber_histories(),
                alive@,
                UpdateView::Unsubscribed { publisher_id: publisher_id@, track_id: track_id@ },
            ),
            final(self).native_id() == old(self).native_id(),
            final(self).delegate_id() == old(self).delegate_id(),
    {
        let ev = RemoteVideoTrackUpdate::Unsubscribed { publisher_id, track_id };
        publish(&mut self.remote_video_track_subscribers, &ev)
    }

    /// How many subscribers are currently registered.
    pub fn subscriber_count(&self) -> (n: usize)
        ensures
            n == self.subscriber_histories().len(),
    {
        self.remote_video_track_subscribers.len()
    }

    /// Tear the session down: disconnect from the native layer, release the
    /// room's reference, then tear the delegate down. Consumes the room, so
    /// each reference is given back exactly once.
    pub fn close(self, layer: &mut NativeLayer)
        requires
            self.owns(old(layer)@),
            self.native_id() != self.delegate_id(),
            old(layer)@.release_calls + 2 <= u64::MAX,
            old(layer)@.disconnect_calls < u64::MAX,
        ensures
            final(layer)@ =~= release_model(
                release_model(
                    LayerModel { disconnect_calls: old(layer)@.disconnect_calls + 1, ..old(layer)@ },
                    self.native_id(),
                ),
                self.delegate_id(),
            ),
    {
        let h = self.native_room.handle();
        layer.disconnect(h);
        self.native_room.release(layer);
        self.delegate.teardown(layer);
    }
}

/// Subscribe trampoline: invoked by the native layer, from any thread, with
/// the delegate's context. The borrow-rule track handle is promoted first,
/// exactly as when the upgrade succeeds; if the weak relation is gone (the
/// room was torn down) the event is silently discarded and the promotion is
/// undone, leaving every reference count as it was.
pub fn on_did_subscribe_to_remote_video_track(
    slot: &mut Option<Room>,
    layer: &mut NativeLayer,
    publisher_id: String,
    track_id: String,
    native_track: usize,
) -> (alive: Ghost<Seq<bool>>)
    requires
        can_retain(old(layer)@, native_track as int),
        old(layer)@.release_calls < u64::MAX,
    ensures
        match *old(slot) {
            None => {
                &&& *final(slot) is None
                &&& final(layer)@ =~= cycle_model(old(layer)@, native_track as int)
            },
            Some(room) => {
                &&& final(layer)@ =~= retain_model(old(layer)@, native_track as int)
                &&& (*final(slot) matches Some(after) && alive@.len()
                    == room.subscriber_histories().len() && after.subscriber_histories()
                    =~= fanout_model(
                    room.subscriber_histories(),
                    alive@,
                    UpdateView::Subscribed(
                        TrackView {
                            handle: native_track as int,
                            sid: track_id@,
                            publisher_id: publisher_id@,
                        },
                    ),
                ) && after.native_id() == room.native_id() && after.delegate_id()
                    == room.delegate_id())
            },
        },
{
    let track = RemoteVideoTrack::new(layer, native_track, track_id, publisher_id);
    match slot {
        Some(room) => room.did_subscribe_to_remote_video_track(track),
        None => {
            track.release(layer);
            Ghost(Seq::empty())
        },
    }
}

/// Unsubscribe trampoline: invoked by the native layer with the delegate's
/// context. If the weak relation is gone the event is silently discarded.
pub fn on_did_unsubscribe_from_remote_video_track(
    slot: &mut Option<Room>,
    publisher_id: String,
    track_id: String,
) -> (alive: Ghost<Seq<bool>>)
    ensures
        match *old(slot) {
            None => *final(slot) is None,
            Some(room) => (*final(slot) matches Some(after) && alive@.len()
                == room.subscriber_histories().len() && after.subscriber_histories()
                =~= fanout_model(
                room.subscriber_histories(),
                alive@,
                UpdateView::Unsubscribed { publisher_id: publisher_id@, track_id: track_id@ },
            ) && after.native_id() == room.native_id() && after.delegate_id()
                == room.delegate_id()),
        },
{
    match slot {
        Some(room) => room.did_unsubscribe_from_remote_video_track(publisher_id, track_id),
        None => Ghost(Seq::empty()),
    }
}

} // verus!
