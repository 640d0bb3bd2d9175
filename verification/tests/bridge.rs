use live_kit_client::completion::CompletionResolver;
use live_kit_client::display::display_sources;
use live_kit_client::error::BridgeError;
use live_kit_client::fanout::{duplicate_update, RemoteVideoTrackUpdate};
use live_kit_client::handle::NativeLayer;
use live_kit_client::room::{
    on_did_subscribe_to_remote_video_track, on_did_unsubscribe_from_remote_video_track, Room,
};
use live_kit_client::track::{FrameBuffer, FrameSink, LocalVideoTrack, MacOSDisplay, RemoteVideoTrack};

#[test]
fn test_client() {}

fn subscribe(slot: &mut Option<Room>, layer: &mut NativeLayer, publisher: &str, track: &str) {
    let h = layer.new_object();
    let _ = on_did_subscribe_to_remote_video_track(
        slot,
        layer,
        publisher.to_owned(),
        track.to_owned(),
        h,
    );
}

#[test]
fn fanout_delivery_order() {
    let mut layer = NativeLayer::new();
    let mut room = Room::new(&mut layer);
    let mut rx = room.remote_video_track_updates();
    let mut slot = Some(room);

    subscribe(&mut slot, &mut layer, "p1", "t1");
    subscribe(&mut slot, &mut layer, "p1", "t2");

    match rx.try_next().unwrap().unwrap() {
        RemoteVideoTrackUpdate::Subscribed(track) => {
            assert_eq!(track.sid(), "t1");
            assert_eq!(track.publisher_id(), "p1");
        }
        _ => panic!("expected a subscription event"),
    }
    match rx.try_next().unwrap().unwrap() {
        RemoteVideoTrackUpdate::Subscribed(track) => {
            assert_eq!(track.sid(), "t2");
            assert_eq!(track.publisher_id(), "p1");
        }
        _ => panic!("expected a subscription event"),
    }
    assert!(rx.try_next().is_err(), "no third event was published");
}

#[test]
fn fanout_unsubscribe_event() {
    let mut layer = NativeLayer::new();
    let mut room = Room::new(&mut layer);
    let mut rx = room.remote_video_track_updates();
    let mut slot = Some(room);

    let _ = on_did_unsubscribe_from_remote_video_track(&mut slot, "p9".to_owned(), "t9".to_owned());

    match rx.try_next().unwrap().unwrap() {
        RemoteVideoTrackUpdate::Unsubscribed { publisher_id, track_id } => {
            assert_eq!(publisher_id, "p9");
            assert_eq!(track_id, "t9");
        }
        _ => panic!("expected an unsubscription event"),
    }
}

#[test]
fn fanout_prunes_dead_subscriber() {
    let mut layer = NativeLayer::new();
    let mut room = Room::new(&mut layer);
    let dead_rx = room.remote_video_track_updates();
    let mut live_rx = room.remote_video_track_updates();
    assert_eq!(room.subscriber_count(), 2);
    drop(dead_rx);

    let mut slot = Some(room);
    subscribe(&mut slot, &mut layer, "p1", "t1");

    let room = slot.take().unwrap();
    assert_eq!(room.subscriber_count(), 1, "the dead subscriber was pruned");
    match live_rx.try_next().unwrap().unwrap() {
        RemoteVideoTrackUpdate::Subscribed(track) => assert_eq!(track.sid(), "t1"),
        _ => panic!("expected a subscription event"),
    }
}

#[test]
fn connect_success_resolves() {
    let mut layer = NativeLayer::new();
    let room = Room::new(&mut layer);
    let (mut completion, resolver) = room.connect("wss://x", "tok");
    let _ = resolver.invoke(None);
    assert!(matches!(completion.try_settle(), Some(Ok(()))));
}

#[test]
fn connect_failure_carries_exact_text() {
    let mut layer = NativeLayer::new();
    let room = Room::new(&mut layer);
    let (mut completion, resolver) = room.connect("wss://x", "tok");
    let _ = resolver.invoke(Some("boom".to_owned()));
    match completion.try_settle() {
        Some(Err(BridgeError::Operation { context, message })) => {
            assert_eq!(context, "error connecting to room");
            assert_eq!(message, "boom");
        }
        _ => panic!("expected a typed operation failure"),
    }
}

#[test]
fn completion_pending_then_contract_violation() {
    let mut layer = NativeLayer::new();
    let room = Room::new(&mut layer);
    let (mut completion, resolver) = room.connect("wss://x", "tok");
    assert!(completion.try_settle().is_none(), "still pending");
    drop(resolver);
    assert!(matches!(
        completion.try_settle(),
        Some(Err(BridgeError::ContractViolation))
    ));
}

#[test]
fn publish_failure_carries_publish_context() {
    let mut layer = NativeLayer::new();
    let room = Room::new(&mut layer);
    let h = layer.new_object();
    let display = MacOSDisplay::new(&mut layer, h);
    let track = LocalVideoTrack::screen_share_for_display(&mut layer, &display);
    let (mut completion, resolver) = room.publish_video_track(&track);
    let _ = resolver.invoke(Some("denied".to_owned()));
    match completion.try_settle() {
        Some(Err(BridgeError::Operation { context, message })) => {
            assert_eq!(context, "error publishing video track");
            assert_eq!(message, "denied");
        }
        _ => panic!("expected a typed operation failure"),
    }
}

#[test]
fn weak_upgrade_after_teardown_drops_event() {
    let mut layer = NativeLayer::new();
    let mut room = Room::new(&mut layer);
    let mut rx = room.remote_video_track_updates();
    let mut slot = Some(room);

    slot.take().unwrap().close(&mut layer);
    assert_eq!(layer.disconnect_calls(), 1);

    let retains_before = layer.retain_calls();
    let releases_before = layer.release_calls();
    subscribe(&mut slot, &mut layer, "p1", "t1");
    let _ = on_did_unsubscribe_from_remote_video_track(&mut slot, "p1".to_owned(), "t1".to_owned());

    assert!(slot.is_none());
    assert_eq!(layer.retain_calls(), retains_before + 1, "the track was still promoted");
    assert_eq!(layer.release_calls(), releases_before + 1, "and released again");
    assert!(
        rx.try_next().unwrap().is_none(),
        "the channel closed without the discarded events"
    );
}

#[test]
fn handle_lifecycle_counts_match() {
    let mut layer = NativeLayer::new();
    let h = layer.new_object();
    assert_eq!(layer.count_of(h), 1);

    let n: u64 = 5;
    for _ in 0..n {
        let display = MacOSDisplay::new(&mut layer, h);
        assert_eq!(layer.count_of(h), 2);
        display.release(&mut layer);
        assert_eq!(layer.count_of(h), 1);
    }
    assert_eq!(layer.retain_calls(), n);
    assert_eq!(layer.release_calls(), n);
}

#[test]
fn display_enumeration_error_is_typed() {
    let mut layer = NativeLayer::new();
    let (mut completion, resolver) = display_sources();
    let _ = resolver.invoke(&mut layer, Err("no permission".to_owned()));
    match completion.try_settle() {
        Some(Err(BridgeError::Operation { context, message })) => {
            assert_eq!(context, "error fetching display sources");
            assert_eq!(message, "no permission");
        }
        _ => panic!("expected a typed operation failure"),
    }
    assert_eq!(layer.retain_calls(), 0, "nothing was promoted on failure");
}

#[test]
fn display_enumeration_owns_each_handle() {
    let mut layer = NativeLayer::new();
    let h1 = layer.new_object();
    let h2 = layer.new_object();
    let h3 = layer.new_object();

    let (mut completion, resolver) = display_sources();
    let _ = resolver.invoke(&mut layer, Ok(vec![h1, h2, h3]));
    let displays = match completion.try_settle() {
        Some(Ok(displays)) => displays,
        _ => panic!("expected the owned displays"),
    };
    assert_eq!(displays.len(), 3);
    assert_eq!(layer.count_of(h1), 2);
    assert_eq!(layer.count_of(h2), 2);
    assert_eq!(layer.count_of(h3), 2);

    let mut displays = displays;
    displays.remove(0).release(&mut layer);
    assert_eq!(layer.count_of(h1), 1, "one wrapper released its own reference");
    assert_eq!(layer.count_of(h2), 2, "the others stay independently owned");
    for d in displays {
        d.release(&mut layer);
    }
    assert_eq!(layer.release_calls(), 3);
}

#[test]
fn remote_video_tracks_filters_by_participant() {
    let mut layer = NativeLayer::new();
    let h1 = layer.add_remote_track("p1".to_owned(), "t1".to_owned());
    let _h2 = layer.add_remote_track("p2".to_owned(), "t3".to_owned());
    let h3 = layer.add_remote_track("p1".to_owned(), "t2".to_owned());
    let room = Room::new(&mut layer);

    let tracks = room.remote_video_tracks(&mut layer, "p1");
    assert_eq!(tracks.len(), 2);
    assert_eq!(tracks[0].sid(), "t1");
    assert_eq!(tracks[1].sid(), "t2");
    assert_eq!(tracks[0].publisher_id(), "p1");
    assert_eq!(tracks[1].publisher_id(), "p1");
    assert_eq!(layer.count_of(h1), 2, "each matching handle was promoted");
    assert_eq!(layer.count_of(h3), 2);

    let none = room.remote_video_tracks(&mut layer, "p7");
    assert!(none.is_empty(), "zero matches is not an error");
}

#[test]
fn screen_share_track_follows_create_rule() {
    let mut layer = NativeLayer::new();
    let h = layer.new_object();
    let display = MacOSDisplay::new(&mut layer, h);
    let retains_after_display = layer.retain_calls();

    let track = LocalVideoTrack::screen_share_for_display(&mut layer, &display);
    let track_handle = track.handle();
    assert_eq!(layer.count_of(track_handle), 1);
    assert_eq!(
        layer.retain_calls(),
        retains_after_display,
        "a create-rule handle is not promoted again"
    );
    track.release(&mut layer);
    assert_eq!(layer.count_of(track_handle), 0);
    display.release(&mut layer);
}

struct CollectingSink {
    frames: Vec<FrameBuffer>,
}

impl FrameSink for CollectingSink {
    fn on_frame(&mut self, frame: FrameBuffer) {
        self.frames.push(frame);
    }
}

#[test]
fn renderer_delivers_owned_buffers_until_teardown() {
    let mut layer = NativeLayer::new();
    let th = layer.add_remote_track("p1".to_owned(), "t1".to_owned());
    let track = RemoteVideoTrack::new(&mut layer, th, "t1".to_owned(), "p1".to_owned());

    let mut renderer = track.add_renderer(&mut layer, CollectingSink { frames: Vec::new() });
    let buffer = layer.new_object();
    renderer.deliver_frame(&mut layer, buffer);
    renderer.deliver_frame(&mut layer, buffer);
    assert_eq!(layer.count_of(buffer), 3, "each delivery promoted the buffer");

    let sink = renderer.teardown(&mut layer);
    assert_eq!(sink.frames.len(), 2);
    for frame in sink.frames {
        frame.release(&mut layer);
    }
    assert_eq!(layer.count_of(buffer), 1, "every delivered buffer was released");
    track.release(&mut layer);
}

#[test]
fn duplicate_update_shares_the_same_track() {
    let mut layer = NativeLayer::new();
    let th = layer.add_remote_track("p1".to_owned(), "t1".to_owned());
    let track = RemoteVideoTrack::new(&mut layer, th, "t1".to_owned(), "p1".to_owned());
    let ev = RemoteVideoTrackUpdate::Subscribed(std::sync::Arc::new(track));
    match duplicate_update(&ev) {
        RemoteVideoTrackUpdate::Subscribed(copy) => {
            assert_eq!(copy.sid(), "t1");
            assert_eq!(copy.publisher_id(), "p1");
        }
        _ => panic!("duplication keeps the variant"),
    }
    assert_eq!(layer.count_of(th), 2, "sharing adds no native reference");
}

#[test]
fn room_close_releases_both_objects() {
    let mut layer = NativeLayer::new();
    let room = Room::new(&mut layer);
    let objects = layer.object_count();
    assert_eq!(objects, 2, "the delegate and the room");
    assert_eq!(layer.count_of(0), 1);
    assert_eq!(layer.count_of(1), 1);

    room.close(&mut layer);
    assert_eq!(layer.disconnect_calls(), 1);
    assert_eq!(layer.release_calls(), 2);
    assert_eq!(layer.count_of(0), 0);
    assert_eq!(layer.count_of(1), 0);
}
