//! The kinds of assets the client knows.

use vstd::prelude::*;

verus! {

/// A player's portrait.
#[derive(Debug, Copy, Clone, PartialEq, Eq, Structural, Hash)]
pub enum Avatar {
    /// This is the fallback sprite to use if the desired sprite cannot be found.
    NotFound,
    Default,
    Alice,
    Cirno,
    Flandre,
    Kanako,
    Kokoro,
}

impl Default for Avatar {
    fn default() -> (avatar: Self)
        ensures
            avatar == Avatar::Default,
    {
        Avatar::Default
    }
}

/// Each character type is unique.
#[derive(Copy, Clone, Debug, PartialEq, Eq, Structural, Hash)]
pub enum CharacterType {
    /// This is the fallback sprite to use if the desired sprite cannot be found.
    NotFound,
    Alice,
    Cirno,
    Flandre,
    Kanako,
    Kokoro,
}

impl Default for CharacterType {
    fn default() -> (character: Self)
        ensures
            character == CharacterType::NotFound,
    {
        CharacterType::NotFound
    }
}

/// A static, non-animated image: what it shows, and the number of the sprite
/// on its sheet.
#[derive(Debug, Copy, Clone, PartialEq, Eq, Structural)]
pub enum AssetType {
    Avatar(Avatar, usize),
    Character(CharacterType, usize),
}

/// Identifies a type of sound effect. Each of these sound types could be
/// represented by any number of sound files.
#[derive(Debug, Copy, Clone, PartialEq, Eq, Structural, Hash)]
pub enum SoundType {
    Confirm,
    Boop,
}

} // verus!
