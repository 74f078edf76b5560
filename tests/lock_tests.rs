use backend_supervisor::lock::{CreateOutcome, InstanceLock, LockAction, LockRole, STALE_LOCK_SECS};

#[test]
fn first_creation_makes_primary() {
    let mut lock = InstanceLock::new(STALE_LOCK_SECS);
    assert_eq!(lock.role, LockRole::Unlocked);
    assert_eq!(lock.on_create_attempt(CreateOutcome::Created), LockAction::Settled { role: LockRole::Primary });
    assert!(lock.is_primary());
}

#[test]
fn young_marker_makes_secondary() {
    let mut lock = InstanceLock::new(3600);
    let action = lock.on_create_attempt(CreateOutcome::Held { age_secs: Some(3600) });
    assert_eq!(action, LockAction::Settled { role: LockRole::Secondary });
    assert_eq!(lock.role, LockRole::Secondary);
}

#[test]
fn stale_marker_is_removed_and_reacquired() {
    let mut lock = InstanceLock::new(3600);
    assert_eq!(lock.on_create_attempt(CreateOutcome::Held { age_secs: Some(3601) }), LockAction::RemoveStaleAndRetry);
    assert_eq!(lock.role, LockRole::Unlocked);
    assert_eq!(lock.on_create_attempt(CreateOutcome::Created), LockAction::Settled { role: LockRole::Primary });
    assert_eq!(lock.role, LockRole::Primary);
}

#[test]
fn lost_race_after_stale_removal_makes_secondary() {
    let mut lock = InstanceLock::new(3600);
    assert_eq!(lock.on_create_attempt(CreateOutcome::Held { age_secs: Some(86400) }), LockAction::RemoveStaleAndRetry);
    assert_eq!(
        lock.on_create_attempt(CreateOutcome::Held { age_secs: Some(86400) }),
        LockAction::Settled { role: LockRole::Secondary }
    );
}

#[test]
fn unknown_marker_age_makes_secondary() {
    let mut lock = InstanceLock::new(3600);
    assert_eq!(
        lock.on_create_attempt(CreateOutcome::Held { age_secs: None }),
        LockAction::Settled { role: LockRole::Secondary }
    );
}

#[test]
fn settled_lock_ignores_further_attempts() {
    let mut lock = InstanceLock::new(3600);
    lock.on_create_attempt(CreateOutcome::Held { age_secs: Some(1) });
    assert_eq!(lock.on_create_attempt(CreateOutcome::Created), LockAction::Settled { role: LockRole::Secondary });
    assert_eq!(lock.role, LockRole::Secondary);
}

#[test]
fn release_deletes_marker_once_and_only_for_primary() {
    let mut primary = InstanceLock::new(3600);
    primary.on_create_attempt(CreateOutcome::Created);
    assert!(primary.release());
    assert!(!primary.release());
    assert_eq!(primary.role, LockRole::Unlocked);

    let mut secondary = InstanceLock::new(3600);
    secondary.on_create_attempt(CreateOutcome::Held { age_secs: Some(10) });
    assert!(!secondary.release());
}
