//! The session data the state machine carries: the chosen language, the
//! chosen source, and the chosen player. Each slot is written only when the
//! matching stage succeeds.

use vstd::prelude::*;
use crate::anilibria::Anilibria;
use crate::language::Language;
use crate::player::Player;

verus! {

/// The mutable bundle of a session.
pub struct Data {
    pub language: Language,
    pub source: Option<Anilibria>,
    pub player: Option<Player>,
}

impl Data {
    /// Well-formedness of the session: a held source is well formed.
    pub open spec fn wf(&self) -> bool {
        self.source matches Some(s) ==> s.wf()
    }

    /// A session with every slot filled.
    pub fn new(language: Language, source: Anilibria, player: Player) -> (r: Self)
        ensures
            r.language == language,
            r.source == Option::Some(source),
            r.player == Option::Some(player),
    {
        Data { language, source: Option::Some(source), player: Option::Some(player) }
    }

    /// The chosen language.
    pub fn language(&self) -> (r: Language)
        ensures
            r == self.language,
    {
        self.language
    }

    /// Chooses a language.
    pub fn set_language(&mut self, language: Language)
        ensures
            final(self).language == language,
            final(self).source == old(self).source,
            final(self).player == old(self).player,
    {
        self.language = language;
    }

    /// The chosen source, if one is set.
    pub fn source(&self) -> (r: Option<&Anilibria>)
        ensures
            match r {
                Option::Some(s) => self.source matches Some(x) && x == *s,
                Option::None => self.source is None,
            },
    {
        self.source.as_ref()
    }

    /// The chosen source, for mutation, if one is set.
    pub fn source_mut(&mut self) -> (r: Option<&mut Anilibria>)
        ensures
            match old(self).source {
                Option::None => r is None && final(self).source is None,
                Option::Some(s) => r is Some && *r.unwrap() == s && final(self).source is Some
                    && final(self).source.unwrap() == *final(r.unwrap()),
            },
            final(self).language == old(self).language,
            final(self).player == old(self).player,
    {
        self.source.as_mut()
    }

    /// Chooses a source; the session takes it over.
    pub fn set_source(&mut self, source: Anilibria)
        ensures
            final(self).source == Option::Some(source),
            final(self).language == old(self).language,
            final(self).player == old(self).player,
    {
        self.source = Option::Some(source);
    }

    /// The chosen player, if one is set.
    pub fn player(&self) -> (r: Option<Player>)
        ensures
            r == self.player,
    {
        self.player
    }

    /// Chooses a player.
    pub fn set_player(&mut self, player: Player)
        ensures
            final(self).player == Option::Some(player),
            final(self).language == old(self).language,
            final(self).source == old(self).source,
    {
        self.player = Option::Some(player);
    }
}

impl Default for Data {
    /// An empty session: no language filter, no source, no player.
    fn default() -> (r: Self)
        ensures
            r.language == Language::All,
            r.source is None,
            r.player is None,
    {
        Data { language: Language::All, source: Option::None, player: Option::None }
    }
}

} // verus!
