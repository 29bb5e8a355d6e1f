//! What a player or a creature is made from: identity and base statistics.
//!
//! A character is built once, through [`CharacterBuilder`], and never changes
//! afterwards. Entities and players that stem from one character share it.

use vstd::prelude::*;
use std::rc::Rc;
use crate::time::Speed;

verus! {

/// Names a character within a game.
pub type CharacterId = usize;

/// The identity and the base statistics that entities take from their
/// character.
#[derive(Debug)]
pub struct Character {
    pub id: CharacterId,
    pub symbol: char,
    pub behaviour_name: &'static str,
    pub max_health: usize,
    pub max_energy: usize,
    pub speed_base: Speed,
}

impl Character {
    /// The number that the game gave this character.
    pub fn id(&self) -> (id: CharacterId)
        ensures
            id == self.id,
    {
        self.id
    }

    /// The letter that shows this character on screen.
    pub fn symbol(&self) -> (symbol: char)
        ensures
            symbol == self.symbol,
    {
        self.symbol
    }

    /// The name of the behaviour that drives entities of this character. The
    /// empty name stands for a character that is driven from outside.
    pub fn behaviour_name(&self) -> (name: &'static str)
        ensures
            name == self.behaviour_name,
    {
        self.behaviour_name
    }

    /// The health that an entity of this character starts with and never
    /// exceeds.
    pub fn max_health(&self) -> (health: usize)
        ensures
            health == self.max_health,
    {
        self.max_health
    }

    /// The energy that an entity of this character starts with and never
    /// exceeds.
    pub fn max_energy(&self) -> (energy: usize)
        ensures
            energy == self.max_energy,
    {
        self.max_energy
    }

    /// The speed that an entity of this character starts with.
    pub fn speed_base(&self) -> (speed: Speed)
        ensures
            speed == self.speed_base,
    {
        self.speed_base
    }
}

/// `Rc::clone` on a character: one more handle to the same character. The
/// contract claims that the new handle points at the value that the old one
/// points at, which is what sharing by reference count means.
#[verifier::external_body]
pub(crate) fn share(character: &Rc<Character>) -> (shared: Rc<Character>)
    ensures
        shared == *character,
{
    Rc::clone(character)
}

/// Why a builder could not make a character: the named part was never set.
#[derive(Clone, Copy, Debug, PartialEq, Eq, Structural)]
pub enum CharacterError {
    MissingId,
    MissingSymbol,
    MissingMaxLive,
    MissingMaxEnergy,
    MissingSpeedBase,
}

/// Collects the parts of a character one by one. Every part but the behaviour
/// name has to be set before [`CharacterBuilder::build`] succeeds.
#[derive(Clone, Copy, Debug)]
pub struct CharacterBuilder {
    pub id: Option<CharacterId>,
    pub symbol: Option<char>,
    pub behaviour_name: Option<&'static str>,
    pub max_live: Option<usize>,
    pub max_energy: Option<usize>,
    pub speed_base: Option<Speed>,
}

impl Default for CharacterBuilder {
    /// A builder with no part set.
    fn default() -> (builder: CharacterBuilder)
        ensures
            builder == CharacterBuilder::empty(),
    {
        CharacterBuilder {
            id: None,
            symbol: None,
            behaviour_name: None,
            max_live: None,
            max_energy: None,
            speed_base: None,
        }
    }
}

impl CharacterBuilder {
    /// The builder with no part set.
    pub open spec fn empty() -> CharacterBuilder {
        CharacterBuilder {
            id: None,
            symbol: None,
            behaviour_name: None,
            max_live: None,
            max_energy: None,
            speed_base: None,
        }
    }

    /// What [`CharacterBuilder::build`] returns: the character made of the
    /// parts, or the first part that is missing, in the order in which the
    /// fields of a character are declared.
    pub open spec fn outcome(self) -> Result<Character, CharacterError> {
        if self.id.is_none() {
            Err(CharacterError::MissingId)
        } else if self.symbol.is_none() {
            Err(CharacterError::MissingSymbol)
        } else if self.max_live.is_none() {
            Err(CharacterError::MissingMaxLive)
        } else if self.max_energy.is_none() {
            Err(CharacterError::MissingMaxEnergy)
        } else if self.speed_base.is_none() {
            Err(CharacterError::MissingSpeedBase)
        } else {
            Ok(
                Character {
                    id: self.id.unwrap(),
                    symbol: self.symbol.unwrap(),
                    behaviour_name: match self.behaviour_name {
                        Some(name) => name,
                        None => "",
                    },
                    max_health: self.max_live.unwrap(),
                    max_energy: self.max_energy.unwrap(),
                    speed_base: self.speed_base.unwrap(),
                },
            )
        }
    }

    /// Sets the number of the character.
    pub fn id(self, id: CharacterId) -> (builder: CharacterBuilder)
        ensures
            builder == (CharacterBuilder { id: Some(id), ..self }),
    {
        CharacterBuilder { id: Some(id), ..self }
    }

    /// Sets the letter that shows the character.
    pub fn symbol(self, symbol: char) -> (builder: CharacterBuilder)
        ensures
            builder == (CharacterBuilder { symbol: Some(symbol), ..self }),
    {
        CharacterBuilder { symbol: Some(symbol), ..self }
    }

    /// Sets the name of the behaviour that drives the character's entities.
    pub fn behaviour_name(self, name: &'static str) -> (builder: CharacterBuilder)
        ensures
            builder == (CharacterBuilder { behaviour_name: Some(name), ..self }),
    {
        CharacterBuilder { behaviour_name: Some(name), ..self }
    }

    /// Sets the health that the character's entities start with.
    pub fn max_live(self, health: usize) -> (builder: CharacterBuilder)
        ensures
            builder == (CharacterBuilder { max_live: Some(health), ..self }),
    {
        CharacterBuilder { max_live: Some(health), ..self }
    }

    /// Sets the energy that the character's entities start with.
    pub fn max_energy(self, energy: usize) -> (builder: CharacterBuilder)
        ensures
            builder == (CharacterBuilder { max_energy: Some(energy), ..self }),
    {
        CharacterBuilder { max_energy: Some(energy), ..self }
    }

    /// Sets the speed that the character's entities start with.
    pub fn speed_base(self, speed: Speed) -> (builder: CharacterBuilder)
        ensures
            builder == (CharacterBuilder { speed_base: Some(speed), ..self }),
    {
        CharacterBuilder { speed_base: Some(speed), ..self }
    }

    /// Makes the character, or names the first part that was never set.
    pub fn build(&self) -> (built: Result<Character, CharacterError>)
        ensures
            built == self.outcome(),
    {
        let id = match self.id {
            Some(id) => id,
            None => { return Err(CharacterError::MissingId); },
        };
        let symbol = match self.symbol {
            Some(symbol) => symbol,
            None => { return Err(CharacterError::MissingSymbol); },
        };
        let max_health = match self.max_live {
            Some(health) => health,
            None => { return Err(CharacterError::MissingMaxLive); },
        };
        let max_energy = match self.max_energy {
            Some(energy) => energy,
            None => { return Err(CharacterError::MissingMaxEnergy); },
        };
        let speed_base = match self.speed_base {
            Some(speed) => speed,
            None => { return Err(CharacterError::MissingSpeedBase); },
        };
        let behaviour_name = match self.behaviour_name {
            Some(name) => name,
            None => "",
        };
        Ok(Character { id, symbol, behaviour_name, max_health, max_energy, speed_base })
    }
}

} // verus!
