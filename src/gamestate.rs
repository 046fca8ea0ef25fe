use vstd::prelude::*;
use crate::player::Player;
use crate::world::World;

verus! {

/// Slots for the world and the player of a game.
pub struct GameState {
    pub world: Option<World>,
    pub player: Option<Player>,
}

impl GameState {
    /// A game with neither world nor player yet.
    pub fn new() -> (g: GameState)
        ensures
            g.world is None,
            g.player is None,
    {
        GameState { world: None, player: None }
    }

    /// The game's world.
    pub fn world(&self) -> (w: &World)
        requires
            self.world is Some,
        ensures
            *w == self.world->Some_0,
    {
        self.world.as_ref().unwrap()
    }

    /// The game's player.
    pub fn player(&self) -> (p: &Player)
        requires
            self.player is Some,
        ensures
            *p == self.player->Some_0,
    {
        self.player.as_ref().unwrap()
    }

    /// The game's world, to change.
    pub fn world_mut(&mut self) -> (w: &mut World)
        requires
            old(self).world is Some,
        ensures
            *w == old(self).world->Some_0,
            final(self).world == Some(*final(w)),
            final(self).player == old(self).player,
    {
        self.world.as_mut().unwrap()
    }

    /// The game's player, to change.
    pub fn player_mut(&mut self) -> (p: &mut Player)
        requires
            old(self).player is Some,
        ensures
            *p == old(self).player->Some_0,
            final(self).player == Some(*final(p)),
            final(self).world == old(self).world,
    {
        self.player.as_mut().unwrap()
    }
}

} // verus!
