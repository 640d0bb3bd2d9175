//! One-shot completion bridge.
//!
//! A scalar asynchronous native operation (connect, publish) takes a
//! trampoline and a context pointer; the native side later invokes the
//! trampoline exactly once, from any thread, with an error indicator that is
//! absent on success and carries human-readable failure text otherwise. The
//! bridge pairs a `CompletionResolver` (the trampoline's side, consumed by
//! its single invocation) with a `Completion` (the issuing task's side) over
//! a one-shot channel.

use vstd::prelude::*;

use crate::error::BridgeError;
use futures::channel::oneshot;

verus! {

/// futures' `oneshot::Sender`, opaque to the verifier.
#[verifier::external_type_specification]
#[verifier::external_body]
#[verifier::reject_recursive_types(T)]
pub struct ExOneshotSender<T>(oneshot::Sender<T>);

/// futures' `oneshot::Receiver`, opaque to the verifier.
#[verifier::external_type_specification]
#[verifier::external_body]
#[verifier::reject_recursive_types(T)]
pub struct ExOneshotReceiver<T>(oneshot::Receiver<T>);

/// futures' `oneshot::Canceled`: the sender was dropped without sending.
#[verifier::external_type_specification]
#[verifier::external_body]
pub struct ExCanceled(oneshot::Canceled);

/// Relies on futures' `oneshot::channel`: creates a fresh rendezvous pair.
pub assume_specification<T>[ oneshot::channel::<T> ]() -> (pair: (
    oneshot::Sender<T>,
    oneshot::Receiver<T>,
));

/// Relies on futures' `oneshot::Sender::send`: consumes the sender, handing
/// the value to the paired receiver; when the receiver is already gone the
/// value comes back unchanged as `Err`.
pub assume_specification<T>[ oneshot::Sender::<T>::send ](s: oneshot::Sender<T>, t: T) -> (r:
    Result<(), T>)
    ensures
        r matches Err(v) ==> v == t,
;

/// Relies on futures' `oneshot::Receiver::try_recv`: a non-blocking probe
/// that yields the published value, nothing yet, or `Canceled` when the
/// sender was dropped without sending.
pub assume_specification<T>[ oneshot::Receiver::<T>::try_recv ](
    r: &mut oneshot::Receiver<T>,
) -> (res: Result<Option<T>, oneshot::Canceled>);

/// What a native error indicator means for a one-shot completion: an absent
/// indicator is success, a present one is a failure carrying exactly that
/// text.
pub fn completion_outcome(error: Option<String>) -> (r: Result<(), String>)
    ensures
        error is None <==> r is Ok,
        error matches Some(msg) ==> r == Result::<(), String>::Err(msg),
{
    match error {
        None => Ok(()),
        Some(msg) => Err(msg),
    }
}

/// The trampoline's half of a pending one-shot operation. Its single
/// invocation consumes it, so the typed result is published at most once and
/// the boxed channel state is reclaimed exactly once.
pub struct CompletionResolver {
    tx: oneshot::Sender<Result<(), String>>,
}

impl CompletionResolver {
    /// Invoke the trampoline with the native error indicator. Publishes the
    /// typed outcome (success for an absent indicator, the exact failure
    /// text otherwise) to the paired `Completion`; if that side is already
    /// gone the outcome is discarded, as the native layer cannot be told.
    pub fn invoke(self, error: Option<String>) -> (outcome: Ghost<Result<(), String>>)
        ensures
            error is None <==> outcome@ is Ok,
            error matches Some(msg) ==> outcome@ == Result::<(), String>::Err(msg),
    {
        let r = completion_outcome(error);
        let ghost outcome = r;
        let _ = self.tx.send(r);
        Ghost(outcome)
    }
}

/// The issuing task's half of a pending one-shot operation, annotated with
/// the text describing which operation is in flight.
pub struct Completion {
    rx: oneshot::Receiver<Result<(), String>>,
    context: String,
}

/// What a probe of the completion channel decides: an absent value leaves
/// the operation pending; a published failure text becomes a typed operation
/// failure enriched with the operation context; a channel whose resolver was
/// dropped without publishing is a bridge-contract violation.
pub fn settle_outcome(
    taken: Result<Option<Result<(), String>>, oneshot::Canceled>,
    context: &str,
) -> (r: Option<Result<(), BridgeError>>)
    ensures
        match taken {
            Ok(None) => r is None,
            Ok(Some(o)) => match o {
                Ok(u) => r == Some(Result::<(), BridgeError>::Ok(())),
                Err(msg) => (r matches Some(out) && out matches Err(e) && e
                    matches BridgeError::Operation { context: c, message: m } && c@ == context@
                    && m@ == msg@),
            },
            Err(canceled) => r == Some(
                Result::<(), BridgeError>::Err(BridgeError::ContractViolation),
            ),
        },
{
    match taken {
        Ok(None) => None,
        Ok(Some(Ok(()))) => Some(Ok(())),
        Ok(Some(Err(msg))) => Some(
            Err(BridgeError::Operation { context: context.to_owned(), message: msg }),
        ),
        Err(_) => Some(Err(BridgeError::ContractViolation)),
    }
}

impl Completion {
    /// The operation-context text this completion was issued with.
    pub closed spec fn context_view(&self) -> Seq<char> {
        self.context@
    }

    /// Probe for the published result without suspending. `None` leaves the
    /// operation pending; a typed failure is enriched with this completion's
    /// operation context; a broken channel surfaces as a bridge-contract
    /// violation.
    pub fn try_settle(&mut self) -> (r: Option<Result<(), BridgeError>>)
        ensures
            final(self).context_view() == old(self).context_view(),
            match r {
                Some(Err(BridgeError::Operation { context: c, message: m })) => c@ == old(
                    self,
                ).context_view(),
                _ => true,
            },
    {
        let taken = self.rx.try_recv();
        settle_outcome(taken, self.context.as_str())
    }
}

/// Build a pending one-shot operation: the `Completion` suspends the issuing
/// task, the `CompletionResolver` is handed (as the context pointer) to the
/// native layer for its single callback.
pub fn completion_bridge(context: String) -> (bridge: (Completion, CompletionResolver))
    ensures
        bridge.0.context_view() == context@,
{
    let (tx, rx) = oneshot::channel();
    (Completion { rx, context }, CompletionResolver { tx })
}

} // verus!
