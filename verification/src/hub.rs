//! The hub: one configured dispatch target — a backend behind a bounded
//! queue, a middleware chain, and a delivery worker — plus the guard whose
//! teardown flushes and stops the worker.

use vstd::prelude::*;
use vstd::rwlock::RwLock;
use std::sync::Arc;

use crate::alert::Alert;
use crate::alert::AlertBuilder;
use crate::backends::Backend;
use crate::dedup::spec_purge;
use crate::dedup::spec_should_send;
use crate::dedup::DedupWindow;
use crate::middleware::apply_chain;
use crate::middleware::MapFn;
use crate::middleware::Middleware;
use crate::receipt::ProcessingReceipt;

verus! {

/// How many messages the inbound queue holds; a trigger finding it full
/// sheds the alert rather than block the caller.
pub const QUEUE_CAPACITY: usize = 1024;

#[verifier::external_type_specification]
#[verifier::external_body]
#[verifier::reject_recursive_types(T)]
pub struct ExSender<T>(crossbeam::channel::Sender<T>);

#[verifier::external_type_specification]
#[verifier::external_body]
#[verifier::reject_recursive_types(T)]
pub struct ExReceiver<T>(crossbeam::channel::Receiver<T>);

/// A message handed to the delivery worker over the bounded queue.
pub enum HubMessage {
    /// An alert to deliver, with the receipt to signal once handled.
    Alert(Alert, ProcessingReceipt),
    /// Stop after draining everything enqueued before this message; the
    /// receipt is signaled as the worker exits.
    Terminate(ProcessingReceipt),
}

/// Relies on crossbeam's `bounded`: a queue that holds at most `cap`
/// messages, all sent messages arriving in send order.
#[verifier::external_body]
fn hub_channel(cap: usize) -> (
    crossbeam::channel::Sender<HubMessage>,
    crossbeam::channel::Receiver<HubMessage>,
) {
    crossbeam::channel::bounded(cap)
}

/// Relies on crossbeam's `Sender::clone`: another handle on the same queue.
#[verifier::external_body]
fn clone_sender(s: &crossbeam::channel::Sender<HubMessage>) -> crossbeam::channel::Sender<
    HubMessage,
> {
    s.clone()
}

/// Relies on crossbeam's `Sender::try_send`: enqueue without blocking;
/// false when the queue is full or the worker is gone, and the message is
/// then dropped.
#[verifier::external_body]
fn try_send_message(s: &crossbeam::channel::Sender<HubMessage>, m: HubMessage) -> bool
    opens_invariants none
    no_unwind
{
    s.try_send(m).is_ok()
}

/// Relies on crossbeam's `Sender::send`: enqueue, blocking while the queue
/// is full; false only when the worker is gone.
#[verifier::external_body]
fn send_message(s: &crossbeam::channel::Sender<HubMessage>, m: HubMessage) -> bool
    opens_invariants none
    no_unwind
{
    s.send(m).is_ok()
}

/// Relies on crossbeam's `Receiver::recv`: block for the next message;
/// `None` once every sender is gone and the queue is empty.
#[verifier::external_body]
fn recv_message(r: &crossbeam::channel::Receiver<HubMessage>) -> Option<HubMessage> {
    r.recv().ok()
}

/// Relies on `std::time::SystemTime::now`: the clock reading, as
/// milliseconds since the Unix epoch; zero for a clock before the epoch.
/// Nothing is promised of a clock.
#[verifier::external_body]
fn now_millis() -> u64 {
    match std::time::SystemTime::now().duration_since(std::time::UNIX_EPOCH) {
        Ok(d) => d.as_millis() as u64,
        Err(_) => 0,
    }
}

/// The middleware chain lock holds any chain: registration is unrestricted.
pub struct ChainPred;

impl vstd::rwlock::RwLockPredicate<Vec<Box<dyn Middleware>>> for ChainPred {
    open spec fn inv(self, v: Vec<Box<dyn Middleware>>) -> bool {
        true
    }
}

/// A cloneable handle to one configured dispatch target: the queue into
/// its worker and its middleware chain.
pub struct Dispatch {
    sender: crossbeam::channel::Sender<HubMessage>,
    middleware: Arc<RwLock<Vec<Box<dyn Middleware>>, ChainPred>>,
}

impl Clone for Dispatch {
    /// Another handle on the same queue and chain.
    fn clone(&self) -> Self {
        Dispatch {
            sender: clone_sender(&self.sender),
            middleware: self.middleware.clone(),
        }
    }
}

impl Dispatch {
    /// Trigger an alert through this dispatch target.
    ///
    /// The alert is run through the middleware chain as it stands right
    /// now, then enqueued for the worker without blocking; on a full queue
    /// the alert is shed and its receipt signaled at once, so a caller
    /// never stalls on delivery.
    pub fn trigger(&self, alert: Alert) -> ProcessingReceipt {
        let receipt = ProcessingReceipt::new();
        let read_handle = self.middleware.acquire_read();
        let chain = read_handle.borrow();
        let alert = apply_chain(chain, alert);
        read_handle.release_read();
        let accepted = try_send_message(&self.sender, HubMessage::Alert(alert, receipt.handle()));
        if !accepted {
            receipt.mark_processed();
        }
        receipt
    }
}

/// Trigger an alert through the resolved dispatch target; with none
/// configured, a no-op that returns an already-signaled receipt.
pub fn trigger(dispatch: Option<&Dispatch>, alert: Alert) -> ProcessingReceipt {
    match dispatch {
        Some(d) => d.trigger(alert),
        None => {
            let receipt = ProcessingReceipt::new();
            receipt.mark_processed();
            receipt
        },
    }
}

impl AlertBuilder {
    /// Build this alert and trigger it through the resolved dispatch
    /// target, as [`trigger`] does.
    pub fn trigger(self, dispatch: Option<&Dispatch>) -> ProcessingReceipt {
        trigger(dispatch, self.build())
    }
}

/// One registry slot for a dispatch target, either process-wide or bound to
/// one thread. A thread's configured slot shadows the process-wide one.
pub struct Hub {
    dispatch: Option<Dispatch>,
}

impl Hub {
    /// Whether this slot holds a dispatch target.
    pub closed spec fn is_configured(&self) -> bool {
        self.dispatch is Some
    }

    /// The dispatch target this slot holds, if any.
    pub closed spec fn spec_dispatch(&self) -> Option<Dispatch> {
        self.dispatch
    }

    /// An unconfigured slot; triggering through it is a no-op.
    pub fn new() -> (h: Hub)
        ensures
            !h.is_configured(),
    {
        Hub { dispatch: None }
    }

    /// Put a dispatch target into this slot, failing — with the slot
    /// unchanged — if one is already there: re-configuring a configured
    /// slot is a programming error, and the caller must fail fast on it.
    pub fn install(&mut self, dispatch: Dispatch) -> (ok: bool)
        ensures
            ok == !old(self).is_configured(),
            ok ==> final(self).spec_dispatch() == Some(dispatch),
            !ok ==> *final(self) == *old(self),
    {
        match &self.dispatch {
            Some(_) => false,
            None => {
                self.dispatch = Some(dispatch);
                true
            },
        }
    }

    /// Put a dispatch target into this slot, displacing any previous one:
    /// the process-wide slot may be re-configured, unlike a thread's.
    pub fn replace(&mut self, dispatch: Dispatch)
        ensures
            final(self).spec_dispatch() == Some(dispatch),
    {
        self.dispatch = Some(dispatch);
    }

    /// The dispatch target in this slot, if any.
    pub fn dispatch(&self) -> (r: Option<&Dispatch>)
        ensures
            match r {
                Some(d) => self.spec_dispatch() == Some(*d),
                None => !self.is_configured(),
            },
    {
        self.dispatch.as_ref()
    }
}

/// The dispatch target a trigger resolves to: the calling thread's
/// configured slot if there is one, else the process-wide slot.
pub open spec fn spec_resolved(thread_scoped: Option<&Hub>, global: Option<&Hub>) -> Option<
    Dispatch,
> {
    match thread_scoped {
        Some(t) if t.is_configured() => t.spec_dispatch(),
        _ => match global {
            Some(g) => g.spec_dispatch(),
            None => None,
        },
    }
}

/// Resolve the dispatch target for one trigger call: a thread-scoped slot,
/// where configured, always shadows the process-wide one.
pub fn resolve_dispatch<'a>(thread_scoped: Option<&'a Hub>, global: Option<&'a Hub>) -> (r: Option<
    &'a Dispatch,
>)
    ensures
        match r {
            Some(d) => spec_resolved(thread_scoped, global) == Some(*d),
            None => spec_resolved(thread_scoped, global) is None,
        },
{
    match thread_scoped {
        Some(t) => {
            match t.dispatch() {
                Some(d) => Some(d),
                None => match global {
                    Some(g) => g.dispatch(),
                    None => None,
                },
            }
        },
        None => match global {
            Some(g) => g.dispatch(),
            None => None,
        },
    }
}

/// The delivery worker: owns the backend exclusively, applies the dedup
/// filter, and performs delivery, one message at a time in queue order.
pub struct DeliveryWorker<B: Backend> {
    backend: B,
    receiver: crossbeam::channel::Receiver<HubMessage>,
    window: DedupWindow,
}

impl<B: Backend> DeliveryWorker<B> {
    /// The worker's dedup window state.
    pub closed spec fn window(&self) -> Map<Seq<char>, u64> {
        self.window@
    }

    /// Handle one alert at time `now`: purge the dedup window, consult it,
    /// and deliver the alert unless its dedup key was sent within the
    /// window. Returns whether the alert passed the filter and whether the
    /// backend accepted it; the key is recorded only after an accepted
    /// delivery, so a failed delivery does not suppress the next alert.
    pub fn handle_alert(&mut self, alert: Alert, now: u64) -> (r: (bool, bool))
        ensures
            r.0 == spec_should_send(old(self).window(), alert@.dedup_key, now),
            alert@.dedup_key is None ==> r.0,
            r.1 ==> r.0,
            ({
                let purged = spec_purge(old(self).window(), now);
                if r.1 {
                    match alert@.dedup_key {
                        Some(k) => final(self).window() == purged.insert(k, now),
                        None => final(self).window() == purged,
                    }
                } else {
                    final(self).window() == purged
                }
            }),
    {
        let key: Option<String> = match alert.dedup_key() {
            Some(k) => Some(k.clone()),
            None => None,
        };
        let send = match &key {
            Some(k) => self.window.should_send(Some(k), now),
            None => self.window.should_send(None, now),
        };
        if send {
            match self.backend.send(alert) {
                Ok(()) => {
                    match &key {
                        Some(k) => {
                            self.window.record(k, now);
                        },
                        None => {},
                    }
                    (true, true)
                },
                Err(_) => (true, false),
            }
        } else {
            (false, false)
        }
    }

    /// Run until told to stop: take each message in queue order, handle it,
    /// and signal its receipt; stop on a terminate message — signaling its
    /// receipt — or once every sender is gone.
    ///
    /// The caller gives this loop a thread of its own; the step budget only
    /// gives the loop a measure, and outlasts any real message stream.
    pub fn run(self)
    {
        let mut worker = self;
        let mut fuel: u64 = 0xffff_ffff_ffff_ffff;
        while fuel > 0
            decreases fuel,
        {
            fuel = fuel - 1;
            match recv_message(&worker.receiver) {
                None => {
                    break ;
                },
                Some(HubMessage::Terminate(receipt)) => {
                    receipt.mark_processed();
                    break ;
                },
                Some(HubMessage::Alert(alert, receipt)) => {
                    let now = now_millis();
                    let _ = worker.handle_alert(alert, now);
                    receipt.mark_processed();
                },
            }
        }
    }
}

/// The handle kept for a configured hub's lifetime: its teardown sends a
/// terminate message and blocks until the worker has drained every message
/// enqueued before it — delivered or dedup-skipped — and acknowledged.
pub struct ConfiguredHubGuard {
    dispatch: Dispatch,
}

impl ConfiguredHubGuard {
    /// Append a middleware to the live chain. Triggers already in flight
    /// saw the chain as it was; subsequent triggers see the addition.
    pub fn with_middleware<M: Middleware + 'static>(self, middleware: M) -> Self {
        let (mut chain, write_handle) = self.dispatch.middleware.acquire_write();
        chain.push(Box::new(middleware));
        write_handle.release_write(chain);
        self
    }

    /// Append a middleware that maps `f` over triggered alerts; `f` must be
    /// callable on any alert.
    pub fn map<F: Fn(Alert) -> Alert + Send + Sync + 'static>(self, f: F) -> Self
        requires
            forall|a: Alert| #[trigger] call_requires(f, (a,)),
    {
        self.with_middleware(MapFn::new(f))
    }

    /// Trigger an alert through this hub, as [`Dispatch::trigger`] does.
    pub fn trigger(&self, alert: Alert) -> ProcessingReceipt {
        self.dispatch.trigger(alert)
    }

    /// A handle to this hub's dispatch target, for putting into a registry
    /// slot.
    pub fn dispatch(&self) -> Dispatch {
        self.dispatch.clone()
    }
}

impl Drop for ConfiguredHubGuard {
    /// Send a terminate message and block until the worker acknowledges:
    /// the queue is ordered, so every alert enqueued before this point has
    /// been handled once the wait returns.
    fn drop(&mut self)
        opens_invariants none
        no_unwind
    {
        let receipt = ProcessingReceipt::new();
        let sent = send_message(&self.dispatch.sender, HubMessage::Terminate(receipt.handle()));
        if sent {
            receipt.wait_processed();
        }
    }
}

/// Configure a dispatch target around `backend`: a fresh bounded queue,
/// an empty middleware chain, and the delivery worker owning the backend.
///
/// The worker must be handed a thread of its own and run; the guard must be
/// retained for the hub's lifetime, since dropping it flushes pending work
/// and stops the worker.
pub fn configure<B: Backend + Send + 'static>(backend: B) -> (r: (
    ConfiguredHubGuard,
    DeliveryWorker<B>,
))
    ensures
        r.1.window() == Map::<Seq<char>, u64>::empty(),
{
    let (sender, receiver) = hub_channel(QUEUE_CAPACITY);
    let chain: Vec<Box<dyn Middleware>> = Vec::new();
    let middleware = Arc::new(
        RwLock::<Vec<Box<dyn Middleware>>, ChainPred>::new(chain, Ghost(ChainPred)),
    );
    let dispatch = Dispatch { sender, middleware };
    let guard = ConfiguredHubGuard { dispatch };
    let worker = DeliveryWorker { backend, receiver, window: DedupWindow::new() };
    (guard, worker)
}

} // verus!
