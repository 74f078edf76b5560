use vstd::prelude::*;

verus! {

/// Age past which a lock marker is taken to be left over from an unclean exit, in seconds.
pub const STALE_LOCK_SECS: u64 = 3600;

/// Where an instance stands with respect to the instance lock.
#[derive(Debug, Clone, Copy, PartialEq, Eq, Structural)]
pub enum LockRole {
    /// No attempt has settled yet, or the lock was released.
    Unlocked,
    /// This instance holds the lock marker and owns the shared backend.
    Primary,
    /// Another live instance holds the marker.
    Secondary,
}

/// What an exclusive creation of the lock marker came to.
#[derive(Debug, Clone, Copy, PartialEq, Eq)]
pub enum CreateOutcome {
    /// The marker did not exist and was created by this instance.
    Created,
    /// The marker could not be created. `age_secs` is its age, where it could be read.
    Held { age_secs: Option<u64> },
}

/// What the caller does next while acquiring the lock.
#[derive(Debug, Clone, Copy, PartialEq, Eq)]
pub enum LockAction {
    /// Delete the stale marker and attempt the exclusive creation once more.
    RemoveStaleAndRetry,
    /// Acquisition is over, with this role.
    Settled { role: LockRole },
}

/// The instance lock of one application instance: `Unlocked`, then `Primary` or `Secondary`.
#[derive(Debug, Clone, Copy)]
pub struct InstanceLock {
    pub role: LockRole,
    /// A stale marker was already removed during this acquisition.
    pub retried: bool,
    /// Staleness threshold, in seconds.
    pub stale_after_secs: u64,
}

/// A marker of this age is stale under this threshold.
pub open spec fn is_stale(age_secs: u64, stale_after_secs: u64) -> bool {
    age_secs > stale_after_secs
}

impl InstanceLock {
    /// The lock after one creation attempt, and what the caller does next. A stale marker is
    /// removed and the creation retried once; a fresh marker, an unknown age, or a second failure
    /// make this instance `Secondary`. Outside acquisition nothing changes.
    pub open spec fn after_attempt(self, outcome: CreateOutcome) -> (InstanceLock, LockAction) {
        match self.role {
            LockRole::Unlocked => match outcome {
                CreateOutcome::Created => (
                    InstanceLock { role: LockRole::Primary, ..self },
                    LockAction::Settled { role: LockRole::Primary },
                ),
                CreateOutcome::Held { age_secs } => {
                    if !self.retried && age_secs is Some && is_stale(
                        age_secs->0,
                        self.stale_after_secs,
                    ) {
                        (InstanceLock { retried: true, ..self }, LockAction::RemoveStaleAndRetry)
                    } else {
                        (
                            InstanceLock { role: LockRole::Secondary, ..self },
                            LockAction::Settled { role: LockRole::Secondary },
                        )
                    }
                },
            },
            _ => (self, LockAction::Settled { role: self.role }),
        }
    }

    /// The lock after a release, and whether the marker is to be deleted: only the primary
    /// instance deletes it, once.
    pub open spec fn after_release(self) -> (InstanceLock, bool) {
        if self.role == LockRole::Primary {
            (InstanceLock { role: LockRole::Unlocked, retried: false, ..self }, true)
        } else {
            (self, false)
        }
    }

    /// A lock that has not been tried yet.
    pub fn new(stale_after_secs: u64) -> (r: InstanceLock)
        ensures
            r.role == LockRole::Unlocked,
            !r.retried,
            r.stale_after_secs == stale_after_secs,
    {
        InstanceLock { role: LockRole::Unlocked, retried: false, stale_after_secs }
    }

    /// Records the outcome of an exclusive creation of the marker.
    pub fn on_create_attempt(&mut self, outcome: CreateOutcome) -> (r: LockAction)
        ensures
            (*final(self), r) == old(self).after_attempt(outcome),
    {
        match self.role {
            LockRole::Unlocked => match outcome {
                CreateOutcome::Created => {
                    self.role = LockRole::Primary;
                    LockAction::Settled { role: LockRole::Primary }
                },
                CreateOutcome::Held { age_secs } => {
                    let stale = match age_secs {
                        Some(age) => age > self.stale_after_secs,
                        None => false,
                    };
                    if !self.retried && stale {
                        self.retried = true;
                        LockAction::RemoveStaleAndRetry
                    } else {
                        self.role = LockRole::Secondary;
                        LockAction::Settled { role: LockRole::Secondary }
                    }
                },
            },
            _ => LockAction::Settled { role: self.role },
        }
    }

    /// Gives the lock up. Returns whether the marker is to be deleted now; later calls return
    /// `false`.
    pub fn release(&mut self) -> (r: bool)
        ensures
            (*final(self), r) == old(self).after_release(),
    {
        if self.role == LockRole::Primary {
            self.role = LockRole::Unlocked;
            self.retried = false;
            true
        } else {
            false
        }
    }

    pub fn is_primary(&self) -> (r: bool)
        ensures
            r == (self.role == LockRole::Primary),
    {
        self.role == LockRole::Primary
    }
}

/// A marker older than the staleness threshold is removed, after which the new candidate's
/// creation makes it primary; if another candidate created it first, this one ends secondary
/// rather than retrying again. A marker no older than the threshold makes the candidate
/// secondary at once.
pub proof fn lemma_stale_marker_reclaimed(lock: InstanceLock, age_secs: u64)
    requires
        lock.role == LockRole::Unlocked,
        !lock.retried,
    ensures
        ({
            let (retrying, action) = lock.after_attempt(CreateOutcome::Held { age_secs: Some(age_secs) });
            if is_stale(age_secs, lock.stale_after_secs) {
                &&& action == LockAction::RemoveStaleAndRetry
                &&& retrying.role == LockRole::Unlocked
                &&& retrying.after_attempt(CreateOutcome::Created) == (
                    InstanceLock { role: LockRole::Primary, ..retrying },
                    LockAction::Settled { role: LockRole::Primary },
                )
                &&& forall|again: Option<u64>|
                    #[trigger] retrying.after_attempt(CreateOutcome::Held { age_secs: again }).0.role
                        == LockRole::Secondary
            } else {
                &&& action == LockAction::Settled { role: LockRole::Secondary }
                &&& retrying.role == LockRole::Secondary
            }
        }),
{
}

/// Releasing twice deletes the marker at most once, and only a primary instance deletes it.
pub proof fn lemma_release_idempotent(lock: InstanceLock)
    ensures
        lock.after_release().1 == (lock.role == LockRole::Primary),
        !lock.after_release().0.after_release().1,
{
}

} // verus!
