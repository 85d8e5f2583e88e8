//! Cancellation token for extraction operations.
//!
//! A lightweight cancellation primitive based on `Arc<AtomicBool>`. The token
//! can be cloned and shared across threads; any holder can request
//! cancellation and all other holders observe the request on their next
//! check. Cancellation is cooperative: extraction stops when it reaches its
//! next cancellation checkpoint.
//!
//! Relaxed ordering is sufficient: only eventual visibility of the flag is
//! needed, not ordering relative to other memory accesses.
//!
//! What the contracts state: a clone is the same token as the one it was
//! cloned from. What they leave unsaid: the value of the flag. It is shared,
//! mutable state behind `&self`, written through `AtomicBool::store` and read
//! through `AtomicBool::load`, whose specifications in vstd say nothing of
//! the stored value; so `is_cancelled` has no `ensures`, and that a
//! cancellation is seen by every clone and is never undone rests on the code
//! (the only write stores `true`) and on the tests, not on a proof.

use std::sync::Arc;
use std::sync::atomic::{AtomicBool, Ordering};
use vstd::prelude::*;

verus! {

/// A lightweight, cloneable, one-shot cancellation token.
///
/// Create one with `CancellationToken::default()`, hand a clone to the
/// extraction, and keep another. Calling [`cancel`](Self::cancel) requests
/// cooperative cancellation. A token cannot be reset: once cancellation has
/// been requested, all current and future clones keep reporting it.
///
/// Cloning is cheap: it only shares the flag.
#[derive(Debug)]
pub struct CancellationToken {
    cancelled: Arc<AtomicBool>,
}

/// `Arc::clone`: another handle on the same allocation, so the clone's value
/// is the original's value.
#[verifier::external_body]
fn share_flag(flag: &Arc<AtomicBool>) -> (r: Arc<AtomicBool>)
    ensures
        r == *flag,
{
    Arc::clone(flag)
}

impl CancellationToken {
    /// Creates a new, uncancelled token.
    pub fn new() -> (r: Self) {
        CancellationToken { cancelled: Arc::new(AtomicBool::new(false)) }
    }

    /// Creates a token whose flag starts out as `cancelled`; a token restored
    /// from its serialized state is made this way.
    pub fn with_state(cancelled: bool) -> (r: Self) {
        CancellationToken { cancelled: Arc::new(AtomicBool::new(cancelled)) }
    }

    /// Requests cooperative cancellation.
    ///
    /// All clones of this token observe [`is_cancelled`](Self::is_cancelled)
    /// returning `true` on their next check. Idempotent; the token remains
    /// cancelled permanently.
    pub fn cancel(&self) {
        self.cancelled.store(true, Ordering::Relaxed);
    }

    /// Returns `true` if cancellation has been requested on any clone.
    pub fn is_cancelled(&self) -> (r: bool) {
        self.cancelled.load(Ordering::Relaxed)
    }
}

impl Clone for CancellationToken {
    /// Shares the flag: the clone is the same token.
    fn clone(&self) -> (r: Self)
        ensures
            r == *self,
    {
        CancellationToken { cancelled: share_flag(&self.cancelled) }
    }
}

impl Default for CancellationToken {
    /// A new, uncancelled token.
    fn default() -> (r: Self) {
        CancellationToken::new()
    }
}

} // verus!
