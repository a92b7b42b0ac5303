//! Use-cases related to user input
//!
//! Use-cases are:
//! -  Player movement
//! -  Missile launch

use vstd::prelude::*;

use crate::world::{World, WorldView};

mod movement;
mod shooting;

// Player movement API
pub use movement::{
    MoveCommand, MoveCommandFactory, MoveConfig, MoveInstruction, PlayerMovementDataGateway,
};

// Shoot API
pub use shooting::{
    launched, pose_of, MissileConfig, MissileLaunchData, ObjectPosAndVelocityData,
    PlayerPosAndVelocityData, ShootCommand, ShootCommandFactory, ShootDataGateway,
};

verus! {

/// Interface for commands issued by player input, to be run on a store of
/// game state.
pub trait InputCommand<Repo: WorldView> {
    /// The command can be run on a store that holds `world`.
    spec fn applies_to(&self, world: World) -> bool;

    /// Running the command may take a store from `before` to `after`.
    spec fn effect(&self, before: World, after: World) -> bool;

    /// Run the command on `repo`.
    fn execute(&self, repo: &mut Repo)
        requires
            self.applies_to(old(repo).world()),
        ensures
            self.effect(old(repo).world(), final(repo).world()),
    ;
}

} // verus!
