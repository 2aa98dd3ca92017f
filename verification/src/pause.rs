//! The pause gate: while the farm is paused nobody stakes, unstakes or claims.

use crate::admins::AdminsModule;
use crate::errors::Error;
use crate::structs::Address;
use vstd::prelude::*;

verus! {

/// What [`PauseModule::pause`] does: an admin pauses a farm that runs.
pub open spec fn pause_outcome(paused: bool, is_admin: bool) -> Result<bool, Error> {
    if !is_admin {
        Err(Error::NotAdmin)
    } else if paused {
        Err(Error::Paused)
    } else {
        Ok(true)
    }
}

/// What [`PauseModule::unpause`] does: an admin resumes a farm that is paused.
pub open spec fn unpause_outcome(paused: bool, is_admin: bool) -> Result<bool, Error> {
    if !is_admin {
        Err(Error::NotAdmin)
    } else if !paused {
        Err(Error::NotPaused)
    } else {
        Ok(false)
    }
}

/// Whether the farm is paused.
#[derive(Clone, Copy, Debug, PartialEq, Eq, Structural)]
pub struct PauseModule {
    pub paused: bool,
}

impl PauseModule {
    /// A farm that runs.
    pub fn new() -> (module: PauseModule)
        ensures
            !module.paused,
    {
        PauseModule { paused: false }
    }

    /// Whether the farm is paused.
    pub fn is_paused(&self) -> (paused: bool)
        ensures
            paused == self.paused,
    {
        self.paused
    }

    /// Pauses the farm for the admin `caller`. On a refusal nothing changes.
    pub fn pause(&mut self, admins: &AdminsModule, caller: &Address) -> (done: Result<(), Error>)
        ensures
            match pause_outcome(old(self).paused, admins@.contains(caller@)) {
                Ok(paused) => done is Ok && final(self).paused == paused,
                Err(e) => done == Err::<(), Error>(e) && *final(self) == *old(self),
            },
    {
        admins.require_is_admin(caller)?;
        self.require_not_paused()?;
        self.paused = true;
        Ok(())
    }

    /// Resumes the farm for the admin `caller`. On a refusal nothing changes.
    pub fn unpause(&mut self, admins: &AdminsModule, caller: &Address) -> (done: Result<
        (),
        Error,
    >)
        ensures
            match unpause_outcome(old(self).paused, admins@.contains(caller@)) {
                Ok(paused) => done is Ok && final(self).paused == paused,
                Err(e) => done == Err::<(), Error>(e) && *final(self) == *old(self),
            },
    {
        admins.require_is_admin(caller)?;
        self.require_paused()?;
        self.paused = false;
        Ok(())
    }

    /// Refuses while the farm runs.
    pub fn require_paused(&self) -> (allowed: Result<(), Error>)
        ensures
            allowed == if self.paused {
                Ok::<(), Error>(())
            } else {
                Err::<(), Error>(Error::NotPaused)
            },
    {
        if self.paused {
            Ok(())
        } else {
            Err(Error::NotPaused)
        }
    }

    /// Refuses while the farm is paused.
    pub fn require_not_paused(&self) -> (allowed: Result<(), Error>)
        ensures
            allowed == if self.paused {
                Err::<(), Error>(Error::Paused)
            } else {
                Ok::<(), Error>(())
            },
    {
        if self.paused {
            Err(Error::Paused)
        } else {
            Ok(())
        }
    }
}

} // verus!
