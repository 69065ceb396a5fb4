//! Characters: the owners of items and of gold.

use vstd::prelude::*;

use crate::errors::Error;

verus! {

/// The calling of a character.
#[derive(Debug, Clone, Copy, PartialEq, Eq, Structural)]
pub enum Class {
    Warrior,
    Mage,
    Ranger,
}

impl Class {
    /// The text under which the ledger stores this class.
    pub open spec fn text(self) -> Seq<char> {
        match self {
            Class::Warrior => "warrior"@,
            Class::Mage => "mage"@,
            Class::Ranger => "ranger"@,
        }
    }

    /// The class that a stored text stands for.
    pub open spec fn spec_parse(text: Seq<char>) -> Option<Class> {
        if text == "warrior"@ {
            Some(Class::Warrior)
        } else if text == "mage"@ {
            Some(Class::Mage)
        } else if text == "ranger"@ {
            Some(Class::Ranger)
        } else {
            None
        }
    }

    /// Renders the class as its stored text.
    pub fn to_string(&self) -> (s: String)
        ensures
            s@ == self.text(),
    {
        match self {
            Class::Warrior => "warrior".to_string(),
            Class::Mage => "mage".to_string(),
            Class::Ranger => "ranger".to_string(),
        }
    }

    /// Reads a class from its stored text. Any other text stands for no
    /// class.
    pub fn parse(text: &str) -> (class: Option<Class>)
        ensures
            class == Class::spec_parse(text@),
    {
        let text = text.to_string();
        if text == "warrior".to_string() {
            Some(Class::Warrior)
        } else if text == "mage".to_string() {
            Some(Class::Mage)
        } else if text == "ranger".to_string() {
            Some(Class::Ranger)
        } else {
            None
        }
    }

    /// The stored text of a class is read back as that class, and no other
    /// text is read as it.
    pub proof fn law_text_is_read_back(self, text: Seq<char>)
        ensures
            Class::spec_parse(self.text()) == Some(self),
            Class::spec_parse(text) == Some(self) <==> text == self.text(),
    {
        reveal_strlit("warrior");
        reveal_strlit("mage");
        reveal_strlit("ranger");
        assert("warrior"@.len() == 7 && "mage"@.len() == 4 && "ranger"@.len() == 6);
    }
}

/// A character, known by its name.
#[derive(Debug, PartialEq, Eq)]
pub struct Character {
    pub name: String,
    pub class: Class,
    pub gold: u64,
}

/// What a character is, apart from how its name is held in memory.
pub struct CharacterView {
    pub name: Seq<char>,
    pub class: Class,
    pub gold: nat,
}

impl View for Character {
    type V = CharacterView;

    open spec fn view(&self) -> CharacterView {
        CharacterView { name: self.name@, class: self.class, gold: self.gold as nat }
    }
}

impl Clone for Character {
    fn clone(&self) -> (copy: Self)
        ensures
            copy == *self,
    {
        Character { name: self.name.clone(), class: self.class, gold: self.gold }
    }
}

impl CharacterView {
    /// The same character with another balance.
    pub open spec fn with_gold(self, gold: nat) -> CharacterView {
        CharacterView { gold, ..self }
    }
}

/// A new balance for a character.
#[derive(Debug, Clone, Copy, PartialEq, Eq)]
pub struct CharacterGoldUpdate {
    pub gold: u64,
}

impl Character {
    /// Admits a character for registration: one without a name is refused,
    /// any other comes back as it was given.
    pub fn register(self) -> (admitted: Result<Character, Error>)
        ensures
            self.name@.len() == 0 <==> admitted is Err,
            admitted matches Err(e) ==> e == Error::EmptyName,
            admitted matches Ok(character) ==> character == self,
    {
        if self.name.as_str().is_empty() {
            return Err(Error::EmptyName);
        }
        Ok(self)
    }

    /// Replaces the balance by the one that `update` carries.
    pub fn apply(&mut self, update: &CharacterGoldUpdate)
        ensures
            final(self)@ == old(self)@.with_gold(update.gold as nat),
            final(self).name == old(self).name,
    {
        self.gold = update.gold;
    }
}

} // verus!
