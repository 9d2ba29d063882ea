//! The typed entity graph a search response decodes into: an anime, its
//! names, its player block, the episode range and the per-episode streams.
//!
//! Each type has a mathematical view whose text fields are character
//! sequences; the contracts of the source speak over those views.

use vstd::prelude::*;
use vstd::string::StringExecFns;
use crate::text::dec_str;
use crate::text::dec_of_u64;

verus! {

/// The localized names of an anime.
pub struct Names {
    pub ru: String,
    pub en: String,
}

/// The view of [`Names`].
pub struct NamesV {
    pub ru: Seq<char>,
    pub en: Seq<char>,
}

impl View for Names {
    type V = NamesV;

    open spec fn view(&self) -> NamesV {
        NamesV { ru: self.ru@, en: self.en@ }
    }
}

impl Names {
    /// The one-line form of the names: `ru | en`.
    pub fn line(&self) -> (r: String)
        ensures
            r@ == self@.line(),
    {
        let mut s = self.ru.clone();
        s.append(" | ");
        s.append(self.en.as_str());
        s
    }
}

impl NamesV {
    /// The one-line form of the names: `ru | en`.
    pub open spec fn line(&self) -> Seq<char> {
        self.ru + " | "@ + self.en
    }
}

/// The episode range of an anime: its first and last episode number, and a
/// label that may be a range (`1-24`) or a descriptor (`Movie`).
pub struct Series {
    pub first: u16,
    pub last: u16,
    pub string: String,
}

/// The view of [`Series`].
pub struct SeriesV {
    pub first: u16,
    pub last: u16,
    pub string: Seq<char>,
}

impl View for Series {
    type V = SeriesV;

    open spec fn view(&self) -> SeriesV {
        SeriesV { first: self.first, last: self.last, string: self.string@ }
    }
}

impl Series {
    /// The printable form of the range: its label.
    pub fn line(&self) -> (r: String)
        ensures
            r@ == self@.string,
    {
        self.string.clone()
    }
}

/// The streams of one episode: its number and an optional URL fragment per
/// quality tier. At least one tier is present.
pub struct SerieInfo {
    pub serie: u16,
    pub fhd: Option<String>,
    pub hd: Option<String>,
    pub sd: Option<String>,
}

/// The view of [`SerieInfo`].
pub struct SerieInfoV {
    pub serie: u16,
    pub fhd: Option<Seq<char>>,
    pub hd: Option<Seq<char>>,
    pub sd: Option<Seq<char>>,
}

impl View for SerieInfo {
    type V = SerieInfoV;

    open spec fn view(&self) -> SerieInfoV {
        SerieInfoV {
            serie: self.serie,
            fhd: match self.fhd {
                Option::Some(ref s) => Option::Some(s@),
                Option::None => Option::None,
            },
            hd: match self.hd {
                Option::Some(ref s) => Option::Some(s@),
                Option::None => Option::None,
            },
            sd: match self.sd {
                Option::Some(ref s) => Option::Some(s@),
                Option::None => Option::None,
            },
        }
    }
}

impl SerieInfoV {
    /// The well-formedness of an episode's streams: some tier is present.
    pub open spec fn wf(&self) -> bool {
        self.fhd is Some || self.hd is Some || self.sd is Some
    }
}

impl SerieInfo {
    /// The printable form of the episode: its number.
    pub fn line(&self) -> (r: String)
        ensures
            r@ == dec_str(self.serie as nat),
    {
        dec_of_u64(self.serie as u64)
    }
}

/// The player block of an anime: the stream host, the episode range, and
/// the playlist keyed by the episode number's decimal form.
pub struct Player {
    pub host: String,
    pub series: Series,
    pub playlist: Vec<(String, SerieInfo)>,
}

/// The view of [`Player`].
pub struct PlayerV {
    pub host: Seq<char>,
    pub series: SeriesV,
    pub playlist: Seq<(Seq<char>, SerieInfoV)>,
}

impl View for Player {
    type V = PlayerV;

    open spec fn view(&self) -> PlayerV {
        PlayerV {
            host: self.host@,
            series: self.series@,
            playlist: self.playlist@.map_values(|e: (String, SerieInfo)| (e.0@, e.1@)),
        }
    }
}

/// The first playlist entry under a key, if any.
pub open spec fn playlist_find(entries: Seq<(Seq<char>, SerieInfoV)>, key: Seq<char>) -> Option<
    SerieInfoV,
>
    decreases entries.len(),
{
    if entries.len() == 0 {
        Option::None
    } else if entries[0].0 == key {
        Option::Some(entries[0].1)
    } else {
        playlist_find(entries.subrange(1, entries.len() as int), key)
    }
}

proof fn lemma_playlist_find_skip(entries: Seq<(Seq<char>, SerieInfoV)>, key: Seq<char>, i: int)
    requires
        0 <= i <= entries.len(),
        forall|k: int| 0 <= k < i ==> (#[trigger] entries[k]).0 != key,
    ensures
        playlist_find(entries, key) == playlist_find(
            entries.subrange(i, entries.len() as int),
            key,
        ),
    decreases i,
{
    if i > 0 {
        lemma_playlist_find_skip(entries.subrange(1, entries.len() as int), key, i - 1);
        assert(entries.subrange(1, entries.len() as int).subrange(i - 1, entries.len() - 1)
            =~= entries.subrange(i, entries.len() as int));
    } else {
        assert(entries.subrange(0, entries.len() as int) =~= entries);
    }
}

/// Looks a key up in a playlist, first entry wins.
pub fn playlist_lookup<'a>(playlist: &'a Vec<(String, SerieInfo)>, key: &str) -> (r: Option<
    &'a SerieInfo,
>)
    ensures
        match r {
            Option::Some(si) => playlist_find(spec_playlist_view(playlist@), key@) == Option::Some(
                si@,
            ),
            Option::None => playlist_find(spec_playlist_view(playlist@), key@) is None,
        },
{
    let ghost entries = spec_playlist_view(playlist@);
    let n = playlist.len();
    let mut i: usize = 0;
    while i < n
        invariant
            i <= n,
            n == playlist.len(),
            entries == spec_playlist_view(playlist@),
            entries.len() == n,
            forall|k: int| 0 <= k < n ==> #[trigger] entries[k] == (playlist@[k].0@, playlist@[k].1@),
            forall|k: int| 0 <= k < i ==> (#[trigger] entries[k]).0 != key@,
        decreases n - i,
    {
        if crate::text::str_eq(playlist[i].0.as_str(), key) {
            proof {
                lemma_playlist_find_skip(entries, key@, i as int);
                assert(entries.subrange(i as int, n as int)[0] == entries[i as int]);
            }
            return Option::Some(&playlist[i].1);
        }
        i += 1;
    }
    proof {
        lemma_playlist_find_skip(entries, key@, n as int);
        assert(entries.subrange(n as int, n as int) =~= Seq::<(Seq<char>, SerieInfoV)>::empty());
    }
    Option::None
}

/// The view of a playlist.
pub open spec fn spec_playlist_view(playlist: Seq<(String, SerieInfo)>) -> Seq<
    (Seq<char>, SerieInfoV),
> {
    playlist.map_values(|e: (String, SerieInfo)| (e.0@, e.1@))
}

/// One search hit: an optional announcement, the localized names, and the
/// player block.
pub struct Anime {
    pub announce: Option<String>,
    pub names: Names,
    pub player: Player,
}

/// The view of [`Anime`].
pub struct AnimeV {
    pub announce: Option<Seq<char>>,
    pub names: NamesV,
    pub player: PlayerV,
}

impl View for Anime {
    type V = AnimeV;

    open spec fn view(&self) -> AnimeV {
        AnimeV {
            announce: match self.announce {
                Option::Some(ref s) => Option::Some(s@),
                Option::None => Option::None,
            },
            names: self.names@,
            player: self.player@,
        }
    }
}

impl AnimeV {
    /// The one-line form of the anime: the names, then the announcement if
    /// there is one.
    pub open spec fn line(&self) -> Seq<char> {
        match self.announce {
            Option::Some(a) => self.names.line() + " | "@ + a,
            Option::None => self.names.line(),
        }
    }

    /// The well-formedness of a parsed anime: every playlist entry holds at
    /// least one stream.
    pub open spec fn wf(&self) -> bool {
        forall|k: int|
            0 <= k < self.player.playlist.len() ==> (#[trigger] self.player.playlist[k]).1.wf()
    }
}

impl Anime {
    /// The one-line form of the anime: the names, then the announcement if
    /// there is one.
    pub fn line(&self) -> (r: String)
        ensures
            r@ == self@.line(),
    {
        let mut s = self.names.line();
        match &self.announce {
            Option::Some(a) => {
                s.append(" | ");
                s.append(a.as_str());
            },
            Option::None => {},
        }
        s
    }
}

} // verus!
