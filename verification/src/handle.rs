//! Ownership-tagged wrapping of opaque native handles.
//!
//! The native backend owns every object and exposes it only as an opaque,
//! reference-counted handle. `NativeLayer` is the bridge's model of that
//! world: a table of per-object reference counts together with counters of
//! the retain/release traffic the bridge has issued. `HandleWrapper` is the
//! move-only wrapper that owns exactly one reference and gives it back
//! exactly once.

use vstd::prelude::*;

verus! {

/// Convention under which a raw handle reaches the bridge: a `Create`-rule
/// handle already carries one owned reference, a `Borrow`-rule handle must be
/// promoted (one extra reference added) before it may be kept.
pub enum AcquireRule {
    Create,
    Borrow,
}

/// A remote track as the native layer's directory knows it: who publishes
/// it, its track identifier, and the handle of the native track object.
#[verifier::ext_equal]
pub ghost struct TrackInfo {
    pub publisher_id: Seq<char>,
    pub sid: Seq<char>,
    pub handle: int,
}

/// Mathematical state of the reference-counted object world: one count per
/// object (indexed by handle), the directory of remote tracks the native
/// layer would report, plus how many retain, release and disconnect calls
/// the bridge has issued so far.
#[verifier::ext_equal]
pub ghost struct LayerModel {
    pub counts: Seq<nat>,
    pub tracks: Seq<TrackInfo>,
    pub retain_calls: nat,
    pub release_calls: nat,
    pub disconnect_calls: nat,
}

/// Effect of one retain call on the model.
pub open spec fn retain_model(m: LayerModel, h: int) -> LayerModel {
    LayerModel {
        counts: m.counts.update(h, (m.counts[h] + 1) as nat),
        retain_calls: m.retain_calls + 1,
        ..m
    }
}

/// Effect of one release call on the model.
pub open spec fn release_model(m: LayerModel, h: int) -> LayerModel {
    LayerModel {
        counts: m.counts.update(h, (m.counts[h] - 1) as nat),
        release_calls: m.release_calls + 1,
        ..m
    }
}

/// The object behind handle `h` is alive: it exists and holds at least one
/// reference.
pub open spec fn live(m: LayerModel, h: int) -> bool {
    0 <= h < m.counts.len() && m.counts[h] >= 1
}

/// A retain of `h` can be issued without exceeding any machine counter.
pub open spec fn can_retain(m: LayerModel, h: int) -> bool {
    live(m, h) && m.counts[h] < u64::MAX && m.retain_calls < u64::MAX
}

/// A release of `h` can be recorded without exceeding the call counter.
pub open spec fn can_release(m: LayerModel, h: int) -> bool {
    live(m, h) && m.release_calls < u64::MAX
}

/// One entry of the native layer's remote-track directory.
struct TrackEntry {
    publisher_id: String,
    sid: String,
    handle: usize,
}

/// Table of reference counts standing for the native object world, with the
/// remote-track directory its direct-query entry point reports and counters
/// of every retain/release/disconnect call the bridge issues.
pub struct NativeLayer {
    counts: Vec<u64>,
    tracks: Vec<TrackEntry>,
    retain_calls: u64,
    release_calls: u64,
    disconnect_calls: u64,
}

impl View for NativeLayer {
    type V = LayerModel;

    closed spec fn view(&self) -> LayerModel {
        LayerModel {
            counts: self.counts@.map_values(|c: u64| c as nat),
            tracks: self.tracks@.map_values(
                |t: TrackEntry|
                    TrackInfo {
                        publisher_id: t.publisher_id@,
                        sid: t.sid@,
                        handle: t.handle as int,
                    },
            ),
            retain_calls: self.retain_calls as nat,
            release_calls: self.release_calls as nat,
            disconnect_calls: self.disconnect_calls as nat,
        }
    }
}

impl NativeLayer {
    /// Fresh world: no objects, no traffic recorded.
    pub fn new() -> (layer: NativeLayer)
        ensures
            layer@ =~= (LayerModel {
                counts: Seq::empty(),
                tracks: Seq::empty(),
                retain_calls: 0,
                release_calls: 0,
                disconnect_calls: 0,
            }),
    {
        NativeLayer {
            counts: Vec::new(),
            tracks: Vec::new(),
            retain_calls: 0,
            release_calls: 0,
            disconnect_calls: 0,
        }
    }

    /// Allocate a new native object with one owned reference; the returned
    /// handle follows the create rule (the caller already owns that
    /// reference).
    pub fn new_object(&mut self) -> (h: usize)
        requires
            old(self)@.counts.len() < usize::MAX,
        ensures
            h == old(self)@.counts.len(),
            final(self)@ =~= (LayerModel { counts: old(self)@.counts.push(1), ..old(self)@ }),
    {
        let h = self.counts.len();
        self.counts.push(1);
        h
    }

    /// Add one reference to a live object and record the call.
    pub fn retain(&mut self, h: usize)
        requires
            can_retain(old(self)@, h as int),
        ensures
            final(self)@ =~= retain_model(old(self)@, h as int),
    {
        let c = self.counts[h];
        self.counts.set(h, c + 1);
        self.retain_calls = self.retain_calls + 1;
    }

    /// Drop one reference from a live object and record the call.
    pub fn release(&mut self, h: usize)
        requires
            can_release(old(self)@, h as int),
        ensures
            final(self)@ =~= release_model(old(self)@, h as int),
    {
        let c = self.counts[h];
        self.counts.set(h, c - 1);
        self.release_calls = self.release_calls + 1;
    }

    /// Record a disconnect request against the backend.
    pub fn disconnect(&mut self, h: usize)
        requires
            old(self)@.disconnect_calls < u64::MAX,
        ensures
            final(self)@ =~= (LayerModel {
                disconnect_calls: old(self)@.disconnect_calls + 1,
                ..old(self)@
            }),
    {
        let _ = h;
        self.disconnect_calls = self.disconnect_calls + 1;
    }

    /// Make a remote track known to the native layer's directory: a new
    /// native track object (one reference, owned by the native side) listed
    /// under its publisher.
    pub fn add_remote_track(&mut self, publisher_id: String, sid: String) -> (h: usize)
        requires
            old(self)@.counts.len() < usize::MAX,
        ensures
            h == old(self)@.counts.len(),
            final(self)@ =~= (LayerModel {
                counts: old(self)@.counts.push(1),
                tracks: old(self)@.tracks.push(
                    TrackInfo { publisher_id: publisher_id@, sid: sid@, handle: h as int },
                ),
                ..old(self)@
            }),
    {
        let h = self.counts.len();
        self.counts.push(1);
        self.tracks.push(TrackEntry { publisher_id, sid, handle: h });
        h
    }

    /// Direct-query entry point: the borrow-rule handles and track
    /// identifiers of every directory entry published by the given
    /// participant, in directory order.
    pub fn video_tracks_for_participant(&self, participant_id: &str) -> (found: Vec<(usize, String)>)
        ensures
            found@.len() == matching_tracks(self@.tracks, participant_id@).len(),
            forall|i: int|
                0 <= i < found@.len() ==> {
                    let info = #[trigger] matching_tracks(self@.tracks, participant_id@)[i];
                    found@[i].0 as int == info.handle && found@[i].1@ == info.sid
                },
    {
        let pid = participant_id.to_owned();
        let mut found: Vec<(usize, String)> = Vec::new();
        let mut i: usize = 0;
        while i < self.tracks.len()
            invariant
                i <= self.tracks@.len(),
                pid@ == participant_id@,
                found@.len() == matching_tracks(self@.tracks.take(i as int), participant_id@).len(),
                forall|k: int|
                    0 <= k < found@.len() ==> {
                        let info = #[trigger] matching_tracks(
                            self@.tracks.take(i as int),
                            participant_id@,
                        )[k];
                        found@[k].0 as int == info.handle && found@[k].1@ == info.sid
                    },
            decreases self.tracks@.len() - i,
    {
            let entry = &self.tracks[i];
            proof {
                assert(self@.tracks.take(i + 1).drop_last() =~= self@.tracks.take(i as int));
                assert(self@.tracks.take(i + 1).last() == self@.tracks[i as int]);
            }
            if entry.publisher_id == pid {
                found.push((entry.handle, entry.sid.clone()));
            }
            i = i + 1;
        }
        proof {
            assert(self@.tracks.take(self.tracks@.len() as int) =~= self@.tracks);
        }
        found
    }

    /// Current reference count of an object.
    pub fn count_of(&self, h: usize) -> (c: u64)
        requires
            h < self@.counts.len(),
        ensures
            c as nat == self@.counts[h as int],
    {
        self.counts[h]
    }

    /// How many objects exist (live or already drained to zero references).
    pub fn object_count(&self) -> (n: usize)
        ensures
            n == self@.counts.len(),
    {
        self.counts.len()
    }

    /// How many retain calls the bridge has issued.
    pub fn retain_calls(&self) -> (n: u64)
        ensures
            n as nat == self@.retain_calls,
    {
        self.retain_calls
    }

    /// How many release calls the bridge has issued.
    pub fn release_calls(&self) -> (n: u64)
        ensures
            n as nat == self@.release_calls,
    {
        self.release_calls
    }

    /// How many disconnect calls the bridge has issued.
    pub fn disconnect_calls(&self) -> (n: u64)
        ensures
            n as nat == self@.disconnect_calls,
    {
        self.disconnect_calls
    }
}

/// Move-only owner of exactly one reference to one native object. It is
/// created by `wrap` and gives its reference back exactly once, through
/// `release`, which consumes it: logical ownership is never duplicated
/// implicitly.
pub struct HandleWrapper {
    handle: usize,
}

impl HandleWrapper {
    /// The wrapped handle, as a model-level index.
    pub closed spec fn id(&self) -> int {
        self.handle as int
    }

    /// The wrapper's reference is backed by a live object in `m`.
    pub open spec fn owns(&self, m: LayerModel) -> bool {
        live(m, self.id())
    }

    /// Wrap a raw handle under the given acquisition rule. A borrow-rule
    /// handle is promoted at once (one extra reference is added); a
    /// create-rule handle already carries the caller's reference and must
    /// not be promoted again.
    pub fn wrap(layer: &mut NativeLayer, handle: usize, rule: AcquireRule) -> (w: HandleWrapper)
        requires
            live(old(layer)@, handle as int),
            rule is Borrow ==> can_retain(old(layer)@, handle as int),
        ensures
            w.id() == handle as int,
            rule is Borrow ==> final(layer)@ =~= retain_model(old(layer)@, handle as int),
            rule is Create ==> final(layer)@ =~= old(layer)@,
            w.owns(final(layer)@),
    {
        match rule {
            AcquireRule::Borrow => layer.retain(handle),
            AcquireRule::Create => (),
        }
        HandleWrapper { handle }
    }

    /// The raw handle, for passing back into the native layer.
    pub fn handle(&self) -> (h: usize)
        ensures
            h as int == self.id(),
    {
        self.handle
    }

    /// Give the owned reference back. Consumes the wrapper, so each wrapper
    /// issues exactly one release over its whole lifetime.
    pub fn release(self, layer: &mut NativeLayer)
        requires
            self.owns(old(layer)@),
            can_release(old(layer)@, self.id()),
        ensures
            final(layer)@ =~= release_model(old(layer)@, self.id()),
    {
        layer.release(self.handle);
    }
}

/// The directory entries published by the given participant, in directory
/// order.
pub open spec fn matching_tracks(tracks: Seq<TrackInfo>, publisher_id: Seq<char>) -> Seq<TrackInfo>
    decreases tracks.len(),
{
    if tracks.len() == 0 {
        Seq::empty()
    } else {
        let front = matching_tracks(tracks.drop_last(), publisher_id);
        if tracks.last().publisher_id == publisher_id {
            front.push(tracks.last())
        } else {
            front
        }
    }
}

/// Every handle in the sequence can be promoted in turn without exhausting
/// any machine counter.
pub open spec fn can_promote_all(m: LayerModel, hs: Seq<int>) -> bool
    decreases hs.len(),
{
    if hs.len() == 0 {
        true
    } else {
        can_retain(m, hs[0]) && can_promote_all(retain_model(m, hs[0]), hs.skip(1))
    }
}

/// Effect of promoting each handle in the sequence, in order.
pub open spec fn promote_all(m: LayerModel, hs: Seq<int>) -> LayerModel
    decreases hs.len(),
{
    if hs.len() == 0 {
        m
    } else {
        promote_all(retain_model(m, hs[0]), hs.skip(1))
    }
}

/// Effect of one full borrow-rule lifecycle (promotion followed by the
/// matching release) on the model.
pub open spec fn cycle_model(m: LayerModel, h: int) -> LayerModel {
    release_model(retain_model(m, h), h)
}

/// Effect of `n` such lifecycles in sequence.
pub open spec fn cycles_model(m: LayerModel, h: int, n: nat) -> LayerModel
    decreases n,
{
    if n == 0 {
        m
    } else {
        cycle_model(cycles_model(m, h, (n - 1) as nat), h)
    }
}

/// One promotion and its matching release leave every reference count as it
/// was and record exactly one retain and one release.
pub proof fn lemma_cycle_balanced(m: LayerModel, h: int)
    requires
        live(m, h),
    ensures
        cycle_model(m, h).counts =~= m.counts,
        cycle_model(m, h).retain_calls == m.retain_calls + 1,
        cycle_model(m, h).release_calls == m.release_calls + 1,
        cycle_model(m, h).disconnect_calls == m.disconnect_calls,
{
    assert(cycle_model(m, h).counts =~= m.counts);
}

/// A sequence of `n` promotions, each matched by its release, leaves every
/// reference count unchanged and records exactly `n` retains and `n`
/// releases: no leak and no double free over the wrappers' full lifetimes.
pub proof fn lemma_n_cycles_balanced(m: LayerModel, h: int, n: nat)
    requires
        live(m, h),
    ensures
        cycles_model(m, h, n).counts =~= m.counts,
        cycles_model(m, h, n).retain_calls == m.retain_calls + n,
        cycles_model(m, h, n).release_calls == m.release_calls + n,
        cycles_model(m, h, n).disconnect_calls == m.disconnect_calls,
    decreases n,
{
    if n == 0 {
    } else {
        lemma_n_cycles_balanced(m, h, (n - 1) as nat);
        lemma_cycle_balanced(cycles_model(m, h, (n - 1) as nat), h);
    }
}

} // verus!
