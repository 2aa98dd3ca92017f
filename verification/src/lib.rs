//! Accounting engine of a staking farm: users stake one asset, hold share
//! tokens that stand for their stake, and earn a reward that grows with the
//! time their stake has been in the farm.
//!
//! Amounts are exact natural numbers of any size ([`biguint::BigUint`]). Every
//! operation is a function from the farm's state and the call's inputs to the
//! next state and a receipt that lists what has to be burned, minted and paid.

pub mod biguint;
pub mod constants;
pub mod errors;
pub mod structs;
pub mod admins;
pub mod pause;
pub mod farm;
pub mod rewards;
pub mod staking;
pub mod solvency;

use vstd::prelude::*;

verus! {

/// The whole farm: its admins, its pause gate and the farm itself.
#[derive(Debug)]
pub struct Template {
    pub admins: admins::AdminsModule,
    pub pause: pause::PauseModule,
    pub farm: farm::FarmModule,
}

impl Template {
    /// A farm as it is deployed: no admins, not paused, not created.
    pub fn init() -> (template: Template)
        ensures
            template.admins@ == Seq::<Seq<u8>>::empty(),
            !template.pause.paused,
            template.farm@ is NotSet,
    {
        Template {
            admins: admins::AdminsModule::new(),
            pause: pause::PauseModule::new(),
            farm: farm::FarmModule::new(),
        }
    }

    /// A new version of the code takes the farm over as it is.
    pub fn upgrade(&mut self)
        ensures
            *final(self) == *old(self),
    {
    }
}

} // verus!
