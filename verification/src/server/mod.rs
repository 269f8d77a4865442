//! The state that the editor serves: one world.

use vstd::prelude::*;
use crate::server::world::World;

pub mod integrity;
pub mod world;

verus! {

/// The owner of the world.
#[derive(Debug, Clone)]
pub struct Server {
    pub world: World,
}

} // verus!
