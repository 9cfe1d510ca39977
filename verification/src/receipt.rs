//! Processing receipts: one-shot, multi-waiter latches that let a caller —
//! or the shutdown guard — block until the delivery worker has finished
//! handling a specific message.

use vstd::prelude::*;
use std::sync::Arc;

verus! {

#[verifier::external_type_specification]
#[verifier::external_body]
#[verifier::reject_recursive_types(T)]
pub struct ExStdMutex<T: ?Sized>(std::sync::Mutex<T>);

#[verifier::external_type_specification]
#[verifier::external_body]
pub struct ExCondvar(std::sync::Condvar);

/// Relies on `std::sync::Mutex::new` and `Condvar::new`: a fresh latch,
/// not yet signaled. An allocation failure aborts; nothing here unwinds.
#[verifier::external_body]
fn latch_new() -> Arc<(std::sync::Mutex<bool>, std::sync::Condvar)>
    opens_invariants none
    no_unwind
{
    Arc::new((std::sync::Mutex::new(false), std::sync::Condvar::new()))
}

/// Relies on `Arc::clone`: another handle on the same latch; never unwinds.
#[verifier::external_body]
fn latch_clone(latch: &Arc<(std::sync::Mutex<bool>, std::sync::Condvar)>) -> Arc<(
    std::sync::Mutex<bool>,
    std::sync::Condvar,
)>
    opens_invariants none
    no_unwind
{
    latch.clone()
}

/// Relies on `std::sync::Mutex::lock` and `Condvar::notify_all`: set the
/// flag under the lock and wake every waiter. A poisoned lock is taken
/// anyway: the flag is a plain boolean, sound under poisoning.
#[verifier::external_body]
fn latch_set(latch: &Arc<(std::sync::Mutex<bool>, std::sync::Condvar)>)
    opens_invariants none
    no_unwind
{
    let mut guard = latch.0.lock().unwrap_or_else(|e| e.into_inner());
    *guard = true;
    latch.1.notify_all();
}

/// Relies on `std::sync::Mutex::lock` and `Condvar::wait_while`: block the
/// calling thread until the flag under the lock is true, tolerant of
/// spurious wakeups. A poisoned lock is taken anyway, as in `latch_set`.
#[verifier::external_body]
fn latch_wait(latch: &Arc<(std::sync::Mutex<bool>, std::sync::Condvar)>)
    opens_invariants none
    no_unwind
{
    let guard = latch.0.lock().unwrap_or_else(|e| e.into_inner());
    let _guard = latch.1.wait_while(guard, |done| !*done).unwrap_or_else(|e| e.into_inner());
}

/// A synchronization handle for one message given to the delivery worker.
///
/// Exactly one `mark_processed` call transitions the latch; any number of
/// clones may block on `wait_processed` before or after the transition.
/// "Processed" means the worker finished handling the message — delivered,
/// dedup-skipped, or shed on a full queue — not that it was delivered.
pub struct ProcessingReceipt {
    latch: Arc<(std::sync::Mutex<bool>, std::sync::Condvar)>,
}

impl ProcessingReceipt {
    /// A fresh, unsignaled receipt.
    pub fn new() -> ProcessingReceipt
        opens_invariants none
        no_unwind
    {
        ProcessingReceipt { latch: latch_new() }
    }

    /// Another handle on the same latch: it waits on, and signals, the
    /// same transition.
    pub fn handle(&self) -> ProcessingReceipt
        opens_invariants none
        no_unwind
    {
        ProcessingReceipt { latch: latch_clone(&self.latch) }
    }

    /// Signal that the message this receipt stands for has been handled,
    /// and wake every waiter. Idempotent.
    pub(crate) fn mark_processed(&self)
        opens_invariants none
        no_unwind
    {
        latch_set(&self.latch);
    }

    /// Block until `mark_processed` has been called on this receipt or one
    /// of its handles; return at once if it already has been.
    pub fn wait_processed(&self)
        opens_invariants none
        no_unwind
    {
        latch_wait(&self.latch);
    }
}

impl Clone for ProcessingReceipt {
    /// A clone waits on, and signals, the same latch, as `handle` does.
    fn clone(&self) -> Self {
        self.handle()
    }
}

impl Default for ProcessingReceipt {
    /// A fresh, unsignaled receipt.
    fn default() -> Self {
        ProcessingReceipt::new()
    }
}

} // verus!
