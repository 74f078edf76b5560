use vstd::prelude::*;

use crate::coordinator::{Backend, Step, StopPlan};

verus! {

/// The persisted display mode of the shell, which survives restarts.
#[derive(Debug, Clone, PartialEq, Eq)]
pub struct ModeState {
    /// The shell shows the local development server and runs no worker.
    pub is_dev_mode: bool,
    /// Address of the development server.
    pub dev_url: String,
    /// Address of the bundled production frontend.
    pub release_url: String,
}

/// What a switch to development mode asks of the caller, after it saved the new mode.
#[derive(Debug, Clone, PartialEq, Eq)]
pub struct DevSwitch {
    /// Stops the backend.
    pub stop: StopPlan,
    /// Where the shell navigates.
    pub navigate_to: String,
}

/// What a switch to release mode, or a resumed launch, asks of the caller, after it saved the
/// mode.
#[derive(Debug, Clone, PartialEq, Eq)]
pub struct ReleaseSwitch {
    /// First step of bringing the backend up, where it is to be started.
    pub start: Option<Step>,
    /// Where the shell navigates.
    pub navigate_to: String,
}

impl ModeState {
    /// Switches to development mode: the mode is recorded, the backend is stopped while the
    /// instance keeps its role, and the shell goes to the development server.
    pub fn to_dev(&mut self, backend: &mut Backend) -> (r: DevSwitch)
        ensures
            *final(self) == (ModeState { is_dev_mode: true, ..*old(self) }),
            *final(backend) == old(backend).after_stop(),
            r.stop.terminate == old(backend).taken_by_stop(),
            r.stop.reclaim_ports@ == old(backend).swept_ports(),
            !r.stop.remove_lock_marker,
            r.navigate_to@ == old(self).dev_url@,
    {
        self.is_dev_mode = true;
        let stop = backend.stop();
        DevSwitch { stop, navigate_to: self.dev_url.clone() }
    }

    /// Switches to release mode: the mode is recorded, a primary instance brings the backend
    /// up again in a new session, and the shell goes to the bundled frontend.
    pub fn to_release(&mut self, backend: &mut Backend) -> (r: ReleaseSwitch)
        ensures
            *final(self) == (ModeState { is_dev_mode: false, ..*old(self) }),
            old(backend).is_primary() ==> r.start == Some(old(backend).after_start(true).1)
                && *final(backend) == old(backend).after_start(true).0,
            !old(backend).is_primary() ==> r.start is None && *final(backend) == *old(backend),
            r.navigate_to@ == old(self).release_url@,
    {
        self.is_dev_mode = false;
        let start = if backend.lock.is_primary() {
            Some(backend.ensure_backend(true))
        } else {
            None
        };
        ReleaseSwitch { start, navigate_to: self.release_url.clone() }
    }

    /// The launch of the shell in the mode saved last time: in development mode no worker is
    /// started; otherwise the backend is brought up, whatever the instance's role.
    pub fn resume(&self, backend: &mut Backend) -> (r: ReleaseSwitch)
        ensures
            self.is_dev_mode ==> r.start is None && *final(backend) == *old(backend)
                && r.navigate_to@ == self.dev_url@,
            !self.is_dev_mode ==> r.start == Some(old(backend).after_start(true).1)
                && *final(backend) == old(backend).after_start(true).0 && r.navigate_to@
                == self.release_url@,
    {
        if self.is_dev_mode {
            ReleaseSwitch { start: None, navigate_to: self.dev_url.clone() }
        } else {
            let start = backend.ensure_backend(true);
            ReleaseSwitch { start: Some(start), navigate_to: self.release_url.clone() }
        }
    }
}

} // verus!
