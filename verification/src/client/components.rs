//! What a player is and holds.

use vstd::prelude::*;
use crate::client::assets::CharacterType;

verus! {

/// What a player is doing.
#[derive(Debug, Clone, Copy, PartialEq, Eq, Structural)]
pub enum PlayerState {
    /// The game has not started, players are chatting.
    Chatting,
}

impl Default for PlayerState {
    fn default() -> (state: Self)
        ensures
            state == PlayerState::Chatting,
    {
        Self::Chatting
    }
}

/// A player in the lobby or in a game.
#[derive(Debug)]
pub struct Player {
    pub name: String,
    pub state: PlayerState,
    pub is_playing: bool,
    pub role: CharacterType,
}

impl Player {
    pub fn new(name: String, state: PlayerState, is_playing: bool, role: CharacterType) -> (player:
        Self)
        ensures
            player.name == name,
            player.state == state,
            player.is_playing == is_playing,
            player.role == role,
    {
        Player { name, state, is_playing, role }
    }
}

impl Clone for Player {
    fn clone(&self) -> (copy: Self)
        ensures
            copy == *self,
    {
        Player {
            name: self.name.clone(),
            state: self.state,
            is_playing: self.is_playing,
            role: self.role,
        }
    }
}

impl Default for Player {
    fn default() -> (player: Self)
        ensures
            player.name@ == Seq::<char>::empty(),
            player.state == PlayerState::Chatting,
            !player.is_playing,
            player.role == CharacterType::NotFound,
    {
        Player {
            name: String::new(),
            state: PlayerState::Chatting,
            is_playing: false,
            role: CharacterType::NotFound,
        }
    }
}

/// A card.
#[derive(Debug, PartialEq, Eq, PartialOrd, Ord)]
pub struct Card {
    pub name: String,
    pub damage: u32,
}

/// A pile of cards.
#[derive(Debug)]
pub struct CardGroup {
    pub cards_num: u32,
    pub cards: Vec<Card>,
}

/// The cards a player has equipped.
#[derive(Debug)]
pub struct Equipment {
    /// Different weapons have different effects.
    pub weapon: Card,
    /// Different armors have different effects.
    pub armor: Card,
    /// Increases your calculated distance from the enemy.
    pub offend_horse: Card,
    /// Reduces enemy's calculated distance from you.
    pub defend_horse: Card,
}

} // verus!
