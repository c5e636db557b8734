//! A participant in a campaign: stable external id, presentation name,
//! and a health counter initialized to a fixed starting value.

use vstd::prelude::*;

verus! {

/// Health every player starts with.
pub const STARTING_HEALTH: u8 = 10;

#[derive(Debug, PartialEq, Eq)]
pub struct Player {
    pub id: String,
    pub display_name: String,
    pub health: u8,
}

impl Player {
    pub fn new(id: String, display_name: String) -> (p: Player)
        ensures
            p.id == id,
            p.display_name == display_name,
            p.health == STARTING_HEALTH,
    {
        Player { id, display_name, health: STARTING_HEALTH }
    }
}

impl Clone for Player {
    fn clone(&self) -> (p: Self)
        ensures
            p == *self,
    {
        Player {
            id: self.id.clone(),
            display_name: self.display_name.clone(),
            health: self.health,
        }
    }
}

} // verus!
