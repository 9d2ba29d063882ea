//! The contract a catalog source offers the dialog: search, select,
//! introspect, produce a stream URL.
//!
//! A source owns its per-session selection state: the anime list of the
//! last search, the selected anime, the selected episode, and the stream
//! the chosen quality resolved to. The `*_info` operations return
//! human-readable listings; the `select_*_as_current` operations take a raw
//! user token and move the matching cursor. Each cursor's operations ask
//! that the upstream cursors are set; the dialog driver guarantees that.

use vstd::prelude::*;
use crate::anilibria::Anilibria;
use crate::errors::SourceError;
use crate::language::Language;

verus! {

/// The capability set the dialog drives.
pub trait Source: Sized {
    /// The well-formedness of the source's selection state.
    spec fn src_wf(&self) -> bool;

    /// Whether an anime is selected.
    spec fn anime_selected(&self) -> bool;

    /// Whether an episode is selected.
    spec fn episode_selected(&self) -> bool;

    /// Whether a quality has been resolved to a stream.
    spec fn stream_selected(&self) -> bool;

    /// The language of the catalog.
    fn language(&self) -> Language;

    /// Runs a search over the catalog: takes the query and the transport's
    /// outcome for it, and on success replaces the internal anime list and
    /// returns a numbered listing.
    fn search_anime_list(&mut self, query: &str, response: Result<String, String>) -> (r: Result<
        String,
        SourceError,
    >)
        requires
            old(self).src_wf(),
        ensures
            final(self).src_wf(),
    ;

    /// Selects an anime from the current list by token.
    fn select_anime_as_current(&mut self, token: String) -> (r: Result<(), SourceError>)
        requires
            old(self).src_wf(),
        ensures
            final(self).src_wf(),
            r is Ok ==> final(self).anime_selected(),
    ;

    /// The one-line description of the selected anime.
    fn anime_info(&self) -> (r: Result<String, SourceError>)
        requires
            self.src_wf(),
            self.anime_selected(),
    ;

    /// The episode listing of the selected anime.
    fn episodes_info(&self) -> (r: Result<String, SourceError>)
        requires
            self.src_wf(),
            self.anime_selected(),
    ;

    /// Selects an episode of the selected anime by token.
    fn select_episode_as_current(&mut self, token: String) -> (r: Result<(), SourceError>)
        requires
            old(self).src_wf(),
            old(self).anime_selected(),
        ensures
            final(self).src_wf(),
            final(self).anime_selected(),
            r is Ok ==> final(self).episode_selected(),
    ;

    /// The printable form of the selected episode.
    fn episode_info(&self) -> (r: Result<String, SourceError>)
        requires
            self.src_wf(),
            self.episode_selected(),
    ;

    /// The quality listing of the selected episode.
    fn qualities_info(&self) -> (r: Result<String, SourceError>)
        requires
            self.src_wf(),
            self.episode_selected(),
    ;

    /// Selects a quality tier of the selected episode by token and resolves
    /// it to a stream.
    fn select_quality_as_current(&mut self, token: String) -> (r: Result<(), SourceError>)
        requires
            old(self).src_wf(),
            old(self).episode_selected(),
        ensures
            final(self).src_wf(),
            final(self).episode_selected(),
            r is Ok ==> final(self).stream_selected(),
    ;

    /// The URL to hand to the player.
    fn url_for_stream(&self) -> (r: Result<String, SourceError>)
        requires
            self.src_wf(),
            self.stream_selected(),
    ;
}

impl Source for Anilibria {
    open spec fn src_wf(&self) -> bool {
        self.wf()
    }

    open spec fn anime_selected(&self) -> bool {
        self.current_anime_index() is Some
    }

    open spec fn episode_selected(&self) -> bool {
        self.current_anime_index() is Some && self.current_episode_num() is Some
    }

    open spec fn stream_selected(&self) -> bool {
        self.current_stream() is Some
    }

    fn language(&self) -> Language {
        Anilibria::language(self)
    }

    fn search_anime_list(&mut self, query: &str, response: Result<String, String>) -> (r: Result<
        String,
        SourceError,
    >) {
        Anilibria::search_anime_list(self, query, response)
    }

    fn select_anime_as_current(&mut self, token: String) -> (r: Result<(), SourceError>) {
        Anilibria::select_anime_as_current(self, token)
    }

    fn anime_info(&self) -> (r: Result<String, SourceError>) {
        Anilibria::anime_info(self)
    }

    fn episodes_info(&self) -> (r: Result<String, SourceError>) {
        Anilibria::episodes_info(self)
    }

    fn select_episode_as_current(&mut self, token: String) -> (r: Result<(), SourceError>) {
        Anilibria::select_episode_as_current(self, token)
    }

    fn episode_info(&self) -> (r: Result<String, SourceError>) {
        Anilibria::episode_info(self)
    }

    fn qualities_info(&self) -> (r: Result<String, SourceError>) {
        Anilibria::qualities_info(self)
    }

    fn select_quality_as_current(&mut self, token: String) -> (r: Result<(), SourceError>) {
        Anilibria::select_quality_as_current(self, token)
    }

    fn url_for_stream(&self) -> (r: Result<String, SourceError>) {
        Anilibria::url_for_stream(self)
    }
}

} // verus!
