//! Media track and display wrappers, and the renderer frame bridge.

use vstd::prelude::*;

use crate::handle::{
    can_release, can_retain, live, AcquireRule, HandleWrapper, LayerModel, NativeLayer,
    release_model, retain_model,
};

verus! {

/// A track or participant identifier, as the native layer reports it.
pub type Sid = String;

/// Mathematical content of a remote track wrapper.
#[verifier::ext_equal]
pub ghost struct TrackView {
    pub handle: int,
    pub sid: Seq<char>,
    pub publisher_id: Seq<char>,
}

/// A track another participant publishes. It reaches the bridge as a
/// borrow-rule handle and is promoted to owned at construction; its track
/// identifier and publisher identifier are fixed for its whole life.
pub struct RemoteVideoTrack {
    wrapper: HandleWrapper,
    sid: Sid,
    publisher_id: String,
}

impl View for RemoteVideoTrack {
    type V = TrackView;

    closed spec fn view(&self) -> TrackView {
        TrackView { handle: self.wrapper.id(), sid: self.sid@, publisher_id: self.publisher_id@ }
    }
}

impl RemoteVideoTrack {
    /// The wrapper's reference is backed by a live object.
    pub open spec fn owns(&self, m: LayerModel) -> bool {
        live(m, self@.handle)
    }

    /// Promote a borrow-rule native track handle to owned (one extra
    /// reference) and wrap it with its identifiers.
    pub fn new(
        layer: &mut NativeLayer,
        native_track: usize,
        sid: Sid,
        publisher_id: String,
    ) -> (t: RemoteVideoTrack)
        requires
            can_retain(old(layer)@, native_track as int),
        ensures
            final(layer)@ =~= retain_model(old(layer)@, native_track as int),
            t@ =~= (TrackView { handle: native_track as int, sid: sid@, publisher_id: publisher_id@ }),
            t.owns(final(layer)@),
    {
        let wrapper = HandleWrapper::wrap(layer, native_track, AcquireRule::Borrow);
        RemoteVideoTrack { wrapper, sid, publisher_id }
    }

    /// The track identifier fixed at construction.
    pub fn sid(&self) -> (s: &str)
        ensures
            s@ == self@.sid,
    {
        self.sid.as_str()
    }

    /// The publisher identifier fixed at construction.
    pub fn publisher_id(&self) -> (p: &str)
        ensures
            p@ == self@.publisher_id,
    {
        self.publisher_id.as_str()
    }

    /// Create a native renderer object and attach it to this track. The
    /// returned bridge is the sole owner of the renderer's native reference
    /// and of the caller-supplied sink; the native layer drives it through
    /// `deliver_frame` until it fires the teardown path exactly once.
    pub fn add_renderer<S: FrameSink>(&self, layer: &mut NativeLayer, sink: S) -> (r: Renderer<S>)
        requires
            old(layer)@.counts.len() < usize::MAX,
        ensures
            final(layer)@ =~= (LayerModel { counts: old(layer)@.counts.push(1), ..old(layer)@ }),
            r.native_id() == old(layer)@.counts.len(),
            r.owns(final(layer)@),
    {
        let h = layer.new_object();
        let wrapper = HandleWrapper::wrap(layer, h, AcquireRule::Create);
        Renderer { native: wrapper, sink }
    }

    /// Give the promoted reference back; consumes the wrapper.
    pub fn release(self, layer: &mut NativeLayer)
        requires
            self.owns(old(layer)@),
            can_release(old(layer)@, self@.handle),
        ensures
            final(layer)@ =~= release_model(old(layer)@, self@.handle),
    {
        self.wrapper.release(layer);
    }
}

/// A locally produced track; its handle follows the create rule, so wrapping
/// adds no extra reference.
pub struct LocalVideoTrack {
    wrapper: HandleWrapper,
}

impl LocalVideoTrack {
    /// The wrapped native handle.
    pub closed spec fn id(&self) -> int {
        self.wrapper.id()
    }

    /// The wrapper's reference is backed by a live object.
    pub open spec fn owns(&self, m: LayerModel) -> bool {
        live(m, self.id())
    }

    /// Ask the native layer for a fresh screen-share track capturing the
    /// given display. The returned handle follows the create rule: the new
    /// object's single reference is owned by the wrapper.
    pub fn screen_share_for_display(layer: &mut NativeLayer, display: &MacOSDisplay) -> (t:
        LocalVideoTrack)
        requires
            old(layer)@.counts.len() < usize::MAX,
            display.owns(old(layer)@),
        ensures
            final(layer)@ =~= (LayerModel { counts: old(layer)@.counts.push(1), ..old(layer)@ }),
            t.id() == old(layer)@.counts.len(),
            t.owns(final(layer)@),
    {
        let _ = display.handle();
        let h = layer.new_object();
        let wrapper = HandleWrapper::wrap(layer, h, AcquireRule::Create);
        LocalVideoTrack { wrapper }
    }

    /// The raw handle, for handing to the native publish entry point.
    pub fn handle(&self) -> (h: usize)
        ensures
            h as int == self.id(),
    {
        self.wrapper.handle()
    }

    /// Give the owned reference back; consumes the wrapper.
    pub fn release(self, layer: &mut NativeLayer)
        requires
            self.owns(old(layer)@),
            can_release(old(layer)@, self.id()),
        ensures
            final(layer)@ =~= release_model(old(layer)@, self.id()),
    {
        self.wrapper.release(layer);
    }
}

/// A capturable display, reaching the bridge as a borrow-rule handle and
/// promoted to owned at construction.
pub struct MacOSDisplay {
    wrapper: HandleWrapper,
}

impl MacOSDisplay {
    /// The wrapped native handle.
    pub closed spec fn id(&self) -> int {
        self.wrapper.id()
    }

    /// The wrapper's reference is backed by a live object.
    pub open spec fn owns(&self, m: LayerModel) -> bool {
        live(m, self.id())
    }

    /// Promote a borrow-rule display handle to owned and wrap it.
    pub fn new(layer: &mut NativeLayer, native_display: usize) -> (d: MacOSDisplay)
        requires
            can_retain(old(layer)@, native_display as int),
        ensures
            final(layer)@ =~= retain_model(old(layer)@, native_display as int),
            d.id() == native_display as int,
            d.owns(final(layer)@),
    {
        let wrapper = HandleWrapper::wrap(layer, native_display, AcquireRule::Borrow);
        MacOSDisplay { wrapper }
    }

    /// The raw handle, for handing back into the native layer.
    pub fn handle(&self) -> (h: usize)
        ensures
            h as int == self.id(),
    {
        self.wrapper.handle()
    }

    /// Give the promoted reference back; consumes the wrapper.
    pub fn release(self, layer: &mut NativeLayer)
        requires
            self.owns(old(layer)@),
            can_release(old(layer)@, self.id()),
        ensures
            final(layer)@ =~= release_model(old(layer)@, self.id()),
    {
        self.wrapper.release(layer);
    }
}

/// An owned image buffer handed to a frame sink, one per delivered frame.
pub struct FrameBuffer {
    wrapper: HandleWrapper,
}

impl FrameBuffer {
    /// The wrapped native handle.
    pub closed spec fn id(&self) -> int {
        self.wrapper.id()
    }

    /// The wrapper's reference is backed by a live object.
    pub open spec fn owns(&self, m: LayerModel) -> bool {
        live(m, self.id())
    }

    /// Give the owned reference back; consumes the wrapper.
    pub fn release(self, layer: &mut NativeLayer)
        requires
            self.owns(old(layer)@),
            can_release(old(layer)@, self.id()),
        ensures
            final(layer)@ =~= release_model(old(layer)@, self.id()),
    {
        self.wrapper.release(layer);
    }
}

/// Caller-supplied consumer of delivered frames. Each call hands over an
/// owned buffer wrapper; the sink becomes responsible for its release.
pub trait FrameSink {
    fn on_frame(&mut self, frame: FrameBuffer);
}

/// The renderer frame bridge: owns the native renderer object's reference
/// and the boxed sink. The native layer invokes `deliver_frame` any number
/// of times, from any thread, and `teardown` exactly once; `teardown` is the
/// sole path that reclaims the sink and the native reference, so a native
/// layer that never fires it leaks them by design.
pub struct Renderer<S: FrameSink> {
    native: HandleWrapper,
    sink: S,
}

impl<S: FrameSink> Renderer<S> {
    /// The native renderer object's handle.
    pub closed spec fn native_id(&self) -> int {
        self.native.id()
    }

    /// The bridge's reference is backed by a live object.
    pub open spec fn owns(&self, m: LayerModel) -> bool {
        live(m, self.native_id())
    }

    /// Per-frame trampoline: promote the borrow-rule buffer handle to an
    /// owned wrapper and hand it to the sink, which takes over its release.
    pub fn deliver_frame(&mut self, layer: &mut NativeLayer, frame_handle: usize)
        requires
            can_retain(old(layer)@, frame_handle as int),
        ensures
            final(layer)@ =~= retain_model(old(layer)@, frame_handle as int),
            final(self).native_id() == old(self).native_id(),
    {
        let wrapper = HandleWrapper::wrap(layer, frame_handle, AcquireRule::Borrow);
        self.sink.on_frame(FrameBuffer { wrapper });
    }

    /// Teardown trampoline: reclaims the sink and gives the native
    /// renderer's reference back. Consumes the bridge, so this deallocation
    /// path runs exactly once.
    pub fn teardown(self, layer: &mut NativeLayer) -> (sink: S)
        requires
            self.owns(old(layer)@),
            can_release(old(layer)@, self.native_id()),
        ensures
            final(layer)@ =~= release_model(old(layer)@, self.native_id()),
    {
        self.native.release(layer);
        self.sink
    }
}

} // verus!
