//! Placeholder stage for force-generator synchronization.

use vstd::prelude::*;
use crate::forces::{DefaultForceGenerators, ForceGenerators};
use crate::world::Physics;
use core::marker::PhantomData;

verus! {

/// Synchronizes force-generator components into the engine. Force
/// generation is applied per step by application systems instead, so this
/// stage currently performs no work.
pub struct SyncForceGeneratorsToPhysicsSystem<F = DefaultForceGenerators> where F: ForceGenerators {
    pub phantom_force_generators: PhantomData<F>,
}

impl<F: ForceGenerators> SyncForceGeneratorsToPhysicsSystem<F> {
    /// A fresh stage.
    pub fn new() -> (r: SyncForceGeneratorsToPhysicsSystem<F>) {
        SyncForceGeneratorsToPhysicsSystem { phantom_force_generators: PhantomData }
    }

    /// One frame: nothing to synchronize.
    pub fn run(&mut self, physics: &mut Physics)
        ensures
            *final(physics) == *old(physics),
    {
    }
}

impl<F: ForceGenerators> Default for SyncForceGeneratorsToPhysicsSystem<F> {
    /// Same as [`SyncForceGeneratorsToPhysicsSystem::new`].
    fn default() -> (r: SyncForceGeneratorsToPhysicsSystem<F>) {
        SyncForceGeneratorsToPhysicsSystem { phantom_force_generators: PhantomData }
    }
}

} // verus!
