//! Display enumeration bridge.
//!
//! Structurally a one-shot completion that produces a collection instead of
//! a scalar: the native layer fires the resolver once, with either an error
//! string or a collection of borrow-rule display handles; on success each
//! handle is promoted to an independently owned wrapper before the result is
//! published, on failure the published result is the typed failure and no
//! displays.

use vstd::prelude::*;

use crate::error::BridgeError;
use crate::handle::{can_promote_all, can_retain, promote_all, NativeLayer};
use crate::track::MacOSDisplay;
use futures::channel::oneshot;

verus! {

/// Handles as model-level indices.
pub open spec fn ids_of(handles: Seq<usize>) -> Seq<int> {
    handles.map_values(|h: usize| h as int)
}

/// Promote each borrow-rule display handle, in order, into an independently
/// owned wrapper: exactly one wrapper per handle, each owning its own extra
/// reference, so releasing one leaves every other backed.
pub fn promote_displays(layer: &mut NativeLayer, handles: &Vec<usize>) -> (displays: Vec<
    MacOSDisplay,
>)
    requires
        can_promote_all(old(layer)@, ids_of(handles@)),
    ensures
        final(layer)@ =~= promote_all(old(layer)@, ids_of(handles@)),
        displays@.len() == handles@.len(),
        forall|i: int|
            0 <= i < handles@.len() ==> #[trigger] displays@[i].id() == handles@[i] as int,
{
    let ghost ids = ids_of(handles@);
    let mut displays: Vec<MacOSDisplay> = Vec::new();
    let mut i: usize = 0;
    proof {
        assert(ids.skip(0) =~= ids);
    }
    while i < handles.len()
        invariant
            i <= handles@.len(),
            ids == ids_of(handles@),
            displays@.len() == i,
            forall|k: int|
                0 <= k < i ==> #[trigger] displays@[k].id() == handles@[k] as int,
            can_promote_all(layer@, ids.skip(i as int)),
            promote_all(layer@, ids.skip(i as int)) =~= promote_all(old(layer)@, ids),
        decreases handles@.len() - i,
    {
        let h = handles[i];
        proof {
            assert(ids.skip(i as int)[0] == ids[i as int]);
            assert(can_retain(layer@, h as int));
        }
        let display = MacOSDisplay::new(layer, h);
        displays.push(display);
        proof {
            assert(ids.skip(i as int).skip(1) =~= ids.skip(i as int + 1));
        }
        i = i + 1;
    }
    proof {
        assert(ids.skip(handles@.len() as int) =~= Seq::<int>::empty());
    }
    displays
}

/// The trampoline's half of a pending display enumeration. Its single
/// invocation consumes it.
pub struct DisplayResolver {
    tx: oneshot::Sender<Result<Vec<MacOSDisplay>, String>>,
}

impl DisplayResolver {
    /// Invoke the trampoline with what the native layer reported: an error
    /// string, published as-is as the failure with zero displays, or a
    /// collection of borrow-rule handles, each promoted to an owned wrapper
    /// before the collection is published.
    pub fn invoke(self, layer: &mut NativeLayer, reply: Result<Vec<usize>, String>) -> (outcome:
        Ghost<Result<Seq<int>, Seq<char>>>)
        requires
            reply matches Ok(handles) ==> can_promote_all(old(layer)@, ids_of(handles@)),
        ensures
            match reply {
                Ok(handles) => {
                    &&& final(layer)@ =~= promote_all(old(layer)@, ids_of(handles@))
                    &&& outcome@ == Result::<Seq<int>, Seq<char>>::Ok(ids_of(handles@))
                },
                Err(msg) => {
                    &&& final(layer)@ =~= old(layer)@
                    &&& outcome@ == Result::<Seq<int>, Seq<char>>::Err(msg@)
                },
            },
    {
        match reply {
            Ok(handles) => {
                let displays = promote_displays(layer, &handles);
                let _ = self.tx.send(Ok(displays));
                Ghost(Ok(ids_of(handles@)))
            },
            Err(msg) => {
                let ghost text = msg@;
                let _ = self.tx.send(Err(msg));
                Ghost(Err(text))
            },
        }
    }
}

/// What a probe of the enumeration channel decides: pending, the owned
/// displays, a typed failure carrying the native layer's exact text, or a
/// bridge-contract violation for a channel broken without publishing.
pub fn display_settle_outcome(
    taken: Result<Option<Result<Vec<MacOSDisplay>, String>>, oneshot::Canceled>,
) -> (r: Option<Result<Vec<MacOSDisplay>, BridgeError>>)
    ensures
        match taken {
            Ok(None) => r is None,
            Ok(Some(published)) => match published {
                Ok(displays) => r == Some(
                    Result::<Vec<MacOSDisplay>, BridgeError>::Ok(displays),
                ),
                Err(msg) => (r matches Some(out) && out matches Err(e) && e
                    matches BridgeError::Operation { context: c, message: m } && c@
                    == "error fetching display sources"@ && m@ == msg@),
            },
            Err(canceled) => r == Some(
                Result::<Vec<MacOSDisplay>, BridgeError>::Err(BridgeError::ContractViolation),
            ),
        },
{
    match taken {
        Ok(None) => None,
        Ok(Some(Ok(displays))) => Some(Ok(displays)),
        Ok(Some(Err(msg))) => Some(
            Err(
                BridgeError::Operation {
                    context: "error fetching display sources".to_owned(),
                    message: msg,
                },
            ),
        ),
        Err(_) => Some(Err(BridgeError::ContractViolation)),
    }
}

/// The issuing task's half of a pending display enumeration.
pub struct DisplayCompletion {
    rx: oneshot::Receiver<Result<Vec<MacOSDisplay>, String>>,
}

impl DisplayCompletion {
    /// Probe for the published result without suspending. `None` leaves the
    /// enumeration pending; a broken channel surfaces as a bridge-contract
    /// violation.
    pub fn try_settle(&mut self) -> (r: Option<Result<Vec<MacOSDisplay>, BridgeError>>)
        ensures
            match r {
                Some(Err(BridgeError::Operation { context: c, message: m })) => c@
                    == "error fetching display sources"@,
                _ => true,
            },
    {
        let taken = self.rx.try_recv();
        display_settle_outcome(taken)
    }
}

/// Begin a display enumeration: the completion suspends the issuing task,
/// the resolver is handed (as the context pointer) to the native layer for
/// its single callback.
pub fn display_sources() -> (bridge: (DisplayCompletion, DisplayResolver)) {
    let (tx, rx) = oneshot::channel();
    (DisplayCompletion { rx }, DisplayResolver { tx })
}

} // verus!
