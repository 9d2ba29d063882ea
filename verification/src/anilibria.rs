//! The reference catalog source: the Anilibria anime catalog, Russian
//! language, reached over `GET {api_url}/searchTitles?search=<q>&limit=30`.
//!
//! The transport is not the library's business: the caller fetches the
//! response text and hands it to [`Anilibria::search_anime_list`]. Everything
//! after that — decoding, selection, the stream URL — is verified.

use vstd::prelude::*;
use vstd::string::StringExecFns;
use crate::errors::SourceError;
use crate::json::json_of;
use crate::json::parse_json;
use crate::language::Language;
use crate::parser::spec_response_titles;
use crate::parser::titles_from_tree;
use crate::schemas::{Anime, AnimeV, SerieInfoV, playlist_find};
use crate::text::{NumParse, chars_of, contains_chars, contains_seq, dec_of_u64, dec_str,
    dec_value, eq_ignore_case, fold_lower, is_numeric_token, lower_of, lower_seq, parse_num,
    token_digits};

verus! {

/// The Anilibria catalog source and its per-session selection state.
pub struct Anilibria {
    anime_list: Vec<Anime>,
    current_anime: Option<usize>,
    current_episode: Option<u16>,
    current_hls: Option<String>,
}

/// Whether a token names this source: `anilibria`, `anilibria.tv` or
/// `anilib`, case-insensitive.
pub open spec fn spec_name_matches(s: Seq<char>) -> bool {
    lower_seq(s) == "anilibria"@ || lower_seq(s) == "anilibria.tv"@ || lower_seq(s) == "anilib"@
}

/// Whether a token matches an anime: the Unicode-folded token is a substring
/// of either localized name's Unicode-folded form.
pub open spec fn title_matches(a: AnimeV, tok: Seq<char>) -> bool {
    contains_seq(lower_of(a.names.ru), lower_of(tok)) || contains_seq(
        lower_of(a.names.en),
        lower_of(tok),
    )
}

/// The first list position whose anime the token matches, if any.
pub open spec fn first_title_match(list: Seq<AnimeV>, tok: Seq<char>) -> Option<int>
    decreases list.len(),
{
    if list.len() == 0 {
        Option::None
    } else if title_matches(list[0], tok) {
        Option::Some(0)
    } else {
        match first_title_match(list.subrange(1, list.len() as int), tok) {
            Option::Some(j) => Option::Some(j + 1),
            Option::None => Option::None,
        }
    }
}

proof fn lemma_first_match_at(list: Seq<AnimeV>, tok: Seq<char>, m: int)
    requires
        0 <= m < list.len(),
        title_matches(list[m], tok),
        forall|k: int| 0 <= k < m ==> !title_matches(#[trigger] list[k], tok),
    ensures
        first_title_match(list, tok) == Option::Some(m),
    decreases m,
{
    if m > 0 {
        let rest = list.subrange(1, list.len() as int);
        lemma_first_match_at(rest, tok, m - 1);
    }
}

proof fn lemma_first_match_none(list: Seq<AnimeV>, tok: Seq<char>)
    requires
        forall|k: int| 0 <= k < list.len() ==> !title_matches(#[trigger] list[k], tok),
    ensures
        first_title_match(list, tok) is None,
    decreases list.len(),
{
    if list.len() > 0 {
        lemma_first_match_none(list.subrange(1, list.len() as int), tok);
    }
}

/// How an anime-selection token resolves: the chosen list position, or the
/// message of the `UnknownVariant` error. A substring match of either name
/// wins; otherwise the token must be a one-based sequence number in range.
pub open spec fn spec_select_anime(list: Seq<AnimeV>, tok: Seq<char>) -> Result<int, Seq<char>> {
    match first_title_match(list, tok) {
        Option::Some(i) => Result::Ok(i),
        Option::None => {
            if is_numeric_token(tok) && dec_value(token_digits(tok)) <= u64::MAX {
                let n = dec_value(token_digits(tok));
                if 1 <= n <= list.len() {
                    Result::Ok(n - 1)
                } else {
                    Result::Err(
                        "Unknown anime sequence number `"@ + dec_str(n) + "`"@,
                    )
                }
            } else {
                Result::Err("Unknown anime name `"@ + tok + "`"@)
            }
        },
    }
}

/// An episode resolves only when its number is a playlist key.
pub open spec fn spec_episode_member(a: AnimeV, e: u16) -> Result<u16, Seq<char>> {
    if playlist_find(a.player.playlist, dec_str(e as nat)) is Some {
        Result::Ok(e)
    } else {
        Result::Err("Unknown episode number `"@ + dec_str(e as nat) + "`"@)
    }
}

/// How an episode-selection token resolves: the aliases `first`/`f` and
/// `last`/`l` name the range bounds and are tried before any number; a
/// number must fit an episode and be present in the playlist.
pub open spec fn spec_select_episode(a: AnimeV, tok: Seq<char>) -> Result<u16, Seq<char>> {
    let l = lower_seq(tok);
    if l == "first"@ || l == "f"@ {
        spec_episode_member(a, a.player.series.first)
    } else if l == "last"@ || l == "l"@ {
        spec_episode_member(a, a.player.series.last)
    } else if is_numeric_token(tok) {
        if dec_value(token_digits(tok)) > u16::MAX {
            Result::Err("Episode number must be less than 65535"@)
        } else {
            spec_episode_member(a, dec_value(token_digits(tok)) as u16)
        }
    } else {
        Result::Err(
            "Unknown episode pattern `"@ + tok + "`. Possible patterns: first|f, last|l"@,
        )
    }
}

/// The quality tiers, and the alias group of each.
pub open spec fn spec_sd_alias(l: Seq<char>) -> bool {
    l == "1"@ || l == "sd"@ || l == "360p"@ || l == "360"@ || l == "480p"@ || l == "480"@ || l
        == "min"@
}

pub open spec fn spec_hd_alias(l: Seq<char>) -> bool {
    l == "2"@ || l == "hd"@ || l == "720p"@ || l == "720"@ || l == "avg"@
}

pub open spec fn spec_fhd_alias(l: Seq<char>) -> bool {
    l == "3"@ || l == "fhd"@ || l == "1080p"@ || l == "1080"@ || l == "full"@ || l == "max"@
}

/// How a quality-selection token resolves against the streams of the current
/// episode: the first alias group the folded token falls in names the tier,
/// and the tier must be present; anything else is unknown.
pub open spec fn spec_select_quality(si: SerieInfoV, tok: Seq<char>) -> Result<
    Seq<char>,
    Seq<char>,
> {
    let l = lower_seq(tok);
    let unknown = "Unknown quality `"@ + tok + "`"@;
    if spec_sd_alias(l) {
        match si.sd {
            Option::Some(f) => Result::Ok(f),
            Option::None => Result::Err(unknown),
        }
    } else if spec_hd_alias(l) {
        match si.hd {
            Option::Some(f) => Result::Ok(f),
            Option::None => Result::Err(unknown),
        }
    } else if spec_fhd_alias(l) {
        match si.fhd {
            Option::Some(f) => Result::Ok(f),
            Option::None => Result::Err(unknown),
        }
    } else {
        Result::Err(unknown)
    }
}

/// The final stream URL of a stored fragment: one that already starts with
/// `http` is kept verbatim, any other is prefixed with `https://`.
pub open spec fn spec_stream_url(f: Seq<char>) -> Seq<char> {
    if f.len() >= 4 && f.subrange(0, 4) == "http"@ {
        f
    } else {
        "https://"@ + f
    }
}

/// The bound aliases of the episode selector resolve before any numeric
/// reading of the token: any casing of `first` or `f` names the first
/// episode of the range, `last` or `l` the last.
pub proof fn lemma_episode_bound_aliases(a: AnimeV, t: Seq<char>)
    ensures
        lower_seq(t) == "first"@ || lower_seq(t) == "f"@ ==> spec_select_episode(a, t)
            == spec_episode_member(a, a.player.series.first),
        lower_seq(t) == "last"@ || lower_seq(t) == "l"@ ==> spec_select_episode(a, t)
            == spec_episode_member(a, a.player.series.last),
{
    reveal_strlit("first");
    reveal_strlit("f");
    reveal_strlit("last");
    reveal_strlit("l");
    assert("first"@.len() == 5 && "first"@[0] == 'f');
    assert("f"@.len() == 1 && "f"@[0] == 'f');
    assert("last"@.len() == 4 && "last"@[0] == 'l');
    assert("l"@.len() == 1 && "l"@[0] == 'l');
}

/// A quality alias resolves to its tier exactly when the current episode
/// offers the tier; an absent tier, like any unrecognized token, is
/// unknown. The three alias groups are disjoint, so the tier a token names
/// is unambiguous.
pub proof fn lemma_quality_alias_iff_present(si: SerieInfoV, t: Seq<char>)
    ensures
        spec_sd_alias(lower_seq(t)) ==> ((spec_select_quality(si, t) is Ok) <==> si.sd is Some),
        spec_hd_alias(lower_seq(t)) ==> ((spec_select_quality(si, t) is Ok) <==> si.hd is Some),
        spec_fhd_alias(lower_seq(t)) ==> ((spec_select_quality(si, t) is Ok) <==> si.fhd is Some),
        !spec_sd_alias(lower_seq(t)) && !spec_hd_alias(lower_seq(t)) && !spec_fhd_alias(
            lower_seq(t),
        ) ==> spec_select_quality(si, t) is Err,
{
    reveal_strlit("1");
    reveal_strlit("sd");
    reveal_strlit("360p");
    reveal_strlit("360");
    reveal_strlit("480p");
    reveal_strlit("480");
    reveal_strlit("min");
    reveal_strlit("2");
    reveal_strlit("hd");
    reveal_strlit("720p");
    reveal_strlit("720");
    reveal_strlit("avg");
    reveal_strlit("3");
    reveal_strlit("fhd");
    reveal_strlit("1080p");
    reveal_strlit("1080");
    reveal_strlit("full");
    reveal_strlit("max");
    assert("1"@.len() == 1 && "1"@[0] == '1');
    assert("sd"@.len() == 2 && "sd"@[0] == 's');
    assert("360p"@.len() == 4 && "360p"@[0] == '3');
    assert("360"@.len() == 3 && "360"@[0] == '3');
    assert("480p"@.len() == 4 && "480p"@[0] == '4');
    assert("480"@.len() == 3 && "480"@[0] == '4');
    assert("min"@.len() == 3 && "min"@[0] == 'm' && "min"@[1] == 'i');
    assert("2"@.len() == 1 && "2"@[0] == '2');
    assert("hd"@.len() == 2 && "hd"@[0] == 'h');
    assert("720p"@.len() == 4 && "720p"@[0] == '7');
    assert("720"@.len() == 3 && "720"@[0] == '7');
    assert("avg"@.len() == 3 && "avg"@[0] == 'a');
    assert("3"@.len() == 1 && "3"@[0] == '3');
    assert("fhd"@.len() == 3 && "fhd"@[0] == 'f');
    assert("1080p"@.len() == 5 && "1080p"@[0] == '1');
    assert("1080"@.len() == 4 && "1080"@[0] == '1');
    assert("full"@.len() == 4 && "full"@[0] == 'f');
    assert("max"@.len() == 3 && "max"@[0] == 'm' && "max"@[1] == 'a');
    let l = lower_seq(t);
    if spec_hd_alias(l) {
        assert(!spec_sd_alias(l));
    }
    if spec_fhd_alias(l) {
        assert(!spec_sd_alias(l));
        assert(!spec_hd_alias(l));
    }
}

/// Normalizing a stream fragment twice gives the same URL as normalizing it
/// once: the prefix is added at most once.
pub proof fn lemma_stream_url_idempotent(f: Seq<char>)
    ensures
        spec_stream_url(spec_stream_url(f)) == spec_stream_url(f),
{
    reveal_strlit("http");
    reveal_strlit("https://");
    if !(f.len() >= 4 && f.subrange(0, 4) == "http"@) {
        let g = "https://"@ + f;
        assert(g.subrange(0, 4) =~= "http"@);
    }
}

/// One line of the search listing: `\t{n}. {anime}\n`.
pub open spec fn spec_title_line(n: nat, a: AnimeV) -> Seq<char> {
    "\t"@ + dec_str(n) + ". "@ + a.line() + "\n"@
}

/// The numbered search listing, one line per anime.
pub open spec fn spec_titles_listing(list: Seq<AnimeV>) -> Seq<char>
    decreases list.len(),
{
    if list.len() == 0 {
        Seq::empty()
    } else {
        spec_titles_listing(list.drop_last()) + spec_title_line(list.len() as nat, list.last())
    }
}

/// The error text of a search whose result list is empty.
pub open spec fn spec_empty_search_msg(query: Seq<char>) -> Seq<char> {
    "Anime list by query \""@ + query + "\" is empty"@
}

/// The quality listing of an episode: one line per tier it offers.
pub open spec fn spec_qualities_listing(si: SerieInfoV) -> Seq<char> {
    (if si.sd is Some {
        "\t1 | sd | 360p | 480p | min\n"@
    } else {
        Seq::<char>::empty()
    }) + (if si.hd is Some {
        "\t2 | hd | 720p | avg\n"@
    } else {
        Seq::<char>::empty()
    }) + (if si.fhd is Some {
        "\t3 | fhd | 1080p | full | max\n"@
    } else {
        Seq::<char>::empty()
    })
}

impl Anilibria {
    /// The search hits of the last successful search, in listing order.
    pub closed spec fn titles(&self) -> Seq<AnimeV> {
        self.anime_list@.map_values(|a: Anime| a@)
    }

    /// The list position of the currently selected anime, if one is set.
    pub closed spec fn current_anime_index(&self) -> Option<int> {
        match self.current_anime {
            Option::Some(i) => Option::Some(i as int),
            Option::None => Option::None,
        }
    }

    /// The currently selected episode number, if one is set.
    pub closed spec fn current_episode_num(&self) -> Option<u16> {
        self.current_episode
    }

    /// The stream fragment the current quality resolved to, if one is set.
    pub closed spec fn current_stream(&self) -> Option<Seq<char>> {
        match self.current_hls {
            Option::Some(ref s) => Option::Some(s@),
            Option::None => Option::None,
        }
    }

    /// The currently selected anime.
    pub open spec fn current_title(&self) -> AnimeV
        recommends
            self.current_anime_index() is Some,
    {
        self.titles()[self.current_anime_index()->0]
    }

    /// The streams of the currently selected episode.
    pub open spec fn current_episode_streams(&self) -> SerieInfoV
        recommends
            self.wf(),
            self.current_episode_num() is Some,
    {
        playlist_find(
            self.current_title().player.playlist,
            dec_str(self.current_episode_num()->0 as nat),
        )->0
    }

    /// Well-formedness of the selection state: a selected anime is a list
    /// position, every parsed playlist entry offers a stream, and a selected
    /// episode is a playlist key of the selected anime.
    pub open spec fn wf(&self) -> bool {
        &&& (self.current_anime_index() matches Some(i) ==> 0 <= i < self.titles().len())
        &&& (forall|k: int| 0 <= k < self.titles().len() ==> (#[trigger] self.titles()[k]).wf())
        &&& (self.current_episode_num() matches Some(e) ==> self.current_anime_index() is Some
            && playlist_find(self.current_title().player.playlist, dec_str(e as nat)) is Some)
    }

    /// A fresh source: no search made, nothing selected.
    pub fn new() -> (r: Self)
        ensures
            r.wf(),
            r.titles() == Seq::<AnimeV>::empty(),
            r.current_anime_index() is None,
            r.current_episode_num() is None,
            r.current_stream() is None,
    {
        let r = Anilibria {
            anime_list: Vec::new(),
            current_anime: Option::None,
            current_episode: Option::None,
            current_hls: Option::None,
        };
        proof {
            assert(r.titles() =~= Seq::<AnimeV>::empty());
        }
        r
    }

    /// The root of the remote API.
    pub fn api_url(&self) -> (r: &'static str)
        ensures
            r@ == "https://api.anilibria.tv/v2"@,
    {
        "https://api.anilibria.tv/v2"
    }

    /// The name of the source.
    pub fn name(&self) -> (r: &'static str)
        ensures
            r@ == "Anilibria"@,
    {
        "Anilibria"
    }

    /// The listing form of the source: `Anilibria (Russian)`.
    pub fn display_name(&self) -> (r: String)
        ensures
            r@ == "Anilibria ("@ + "Russian"@ + ")"@,
    {
        let mut s = "Anilibria (".to_owned();
        s.append(self.language().name().as_str());
        s.append(")");
        s
    }

    /// The language of the catalog.
    pub fn language(&self) -> (r: Language)
        ensures
            r == Language::Russian,
    {
        Language::Russian
    }

    /// Whether a token names this source.
    pub fn name_matches(&self, token: &str) -> (r: bool)
        ensures
            r == spec_name_matches(token@),
    {
        proof {
            reveal_strlit("anilibria");
            reveal_strlit("anilibria.tv");
            reveal_strlit("anilib");
            assert(lower_seq("anilibria"@) =~= "anilibria"@);
            assert(lower_seq("anilibria.tv"@) =~= "anilibria.tv"@);
            assert(lower_seq("anilib"@) =~= "anilib"@);
        }
        eq_ignore_case(token, "anilibria") || eq_ignore_case(token, "anilibria.tv")
            || eq_ignore_case(token, "anilib")
    }

    /// Whether an anime is currently selected.
    pub fn has_current_anime(&self) -> (r: bool)
        ensures
            r == (self.current_anime_index() is Some),
    {
        self.current_anime.is_some()
    }

    /// Whether an episode is currently selected.
    pub fn has_current_episode(&self) -> (r: bool)
        ensures
            r == (self.current_episode_num() is Some),
    {
        self.current_episode.is_some()
    }

    /// Whether a quality has been resolved to a stream.
    pub fn has_current_stream(&self) -> (r: bool)
        ensures
            r == (self.current_stream() is Some),
    {
        self.current_hls.is_some()
    }
}

/// Whether two sources hold the same selection state.
pub open spec fn same_state(a: Anilibria, b: Anilibria) -> bool {
    &&& a.titles() == b.titles()
    &&& a.current_anime_index() == b.current_anime_index()
    &&& a.current_episode_num() == b.current_episode_num()
    &&& a.current_stream() == b.current_stream()
}

impl Anilibria {
    /// Runs a search: interprets the transport outcome and the response
    /// text of `GET {api_url}/searchTitles?search={query}&limit=30`. On
    /// success the anime list is replaced, the selection cursors are
    /// cleared, and the numbered listing is returned; on any failure —
    /// transport, malformed response, empty result — the whole state is
    /// left as it was.
    pub fn search_anime_list(&mut self, query: &str, response: Result<String, String>) -> (r:
        Result<String, SourceError>)
        requires
            old(self).wf(),
        ensures
            final(self).wf(),
            match response {
                Result::Err(e) => (r matches Err(SourceError::ApiError(m)) && m@ == "Api error: "@
                    + e@) && same_state(*old(self), *final(self)),
                Result::Ok(body) => match json_of(body@) {
                    Option::None => (r matches Err(SourceError::ParseError(_))) && same_state(
                        *old(self),
                        *final(self),
                    ),
                    Option::Some(tree) => match spec_response_titles(tree) {
                        Option::None => (r matches Err(SourceError::ParseError(m)) && m@
                            == "Parse error: unexpected structure of the anime list"@) && same_state(
                            *old(self),
                            *final(self),
                        ),
                        Option::Some(list) => if list.len() == 0 {
                            (r matches Err(SourceError::ApiError(m)) && m@ == spec_empty_search_msg(
                                query@,
                            )) && same_state(*old(self), *final(self))
                        } else {
                            &&& r matches Ok(info) && info@ == spec_titles_listing(list)
                            &&& final(self).titles() == list
                            &&& final(self).current_anime_index() is None
                            &&& final(self).current_episode_num() is None
                            &&& final(self).current_stream() is None
                        },
                    },
                },
            },
    {
        let body = match response {
            Result::Ok(b) => b,
            Result::Err(e) => {
                let mut m = "Api error: ".to_owned();
                m.append(e.as_str());
                return Result::Err(SourceError::ApiError(m));
            },
        };
        let tree = match parse_json(body.as_str()) {
            Result::Ok(t) => t,
            Result::Err(e) => {
                let mut m = "Parse error: ".to_owned();
                m.append(e.as_str());
                return Result::Err(SourceError::ParseError(m));
            },
        };
        let list = match titles_from_tree(&tree) {
            Option::Some(l) => l,
            Option::None => {
                return Result::Err(
                    SourceError::ParseError(
                        "Parse error: unexpected structure of the anime list".to_owned(),
                    ),
                );
            },
        };
        if list.len() == 0 {
            let mut m = "Anime list by query \"".to_owned();
            m.append(query);
            m.append("\" is empty");
            return Result::Err(SourceError::ApiError(m));
        }
        let ghost lv = list@.map_values(|a: Anime| a@);
        let n = list.len();
        let mut info = String::new();
        let mut i: usize = 0;
        while i < n
            invariant
                i <= n,
                n == list.len(),
                lv == list@.map_values(|a: Anime| a@),
                info@ == spec_titles_listing(lv.subrange(0, i as int)),
            decreases n - i,
        {
            info.append("\t");
            let num = dec_of_u64((i as u64) + 1);
            info.append(num.as_str());
            info.append(". ");
            let line = list[i].line();
            info.append(line.as_str());
            info.append("\n");
            proof {
                let pre = lv.subrange(0, i as int);
                let cur = lv.subrange(0, i + 1 as int);
                assert(cur.drop_last() =~= pre);
                assert(cur.last() == lv[i as int]);
            }
            i += 1;
        }
        proof {
            assert(lv.subrange(0, n as int) =~= lv);
        }
        self.anime_list = list;
        self.current_anime = Option::None;
        self.current_episode = Option::None;
        self.current_hls = Option::None;
        Result::Ok(info)
    }

    /// Selects an anime from the current list. A case-insensitive substring
    /// match against either localized name wins; otherwise the token must
    /// be a one-based sequence number in range. On success the downstream
    /// cursors are cleared; on failure nothing changes.
    pub fn select_anime_as_current(&mut self, title_or_seq_num: String) -> (r: Result<
        (),
        SourceError,
    >)
        requires
            old(self).wf(),
        ensures
            final(self).wf(),
            final(self).titles() == old(self).titles(),
            match spec_select_anime(old(self).titles(), title_or_seq_num@) {
                Result::Ok(i) => r is Ok && final(self).current_anime_index() == Option::Some(i)
                    && final(self).current_episode_num() is None && final(self).current_stream()
                    is None,
                Result::Err(msg) => (r matches Err(SourceError::UnknownVariant(m)) && m@ == msg)
                    && same_state(*old(self), *final(self)),
            },
    {
        let folded_tok = fold_lower(title_or_seq_num.as_str());
        let tokv = chars_of(folded_tok.as_str());
        let n = self.anime_list.len();
        let mut i: usize = 0;
        while i < n
            invariant
                i <= n,
                *self == *old(self),
                old(self).wf(),
                n == self.anime_list.len(),
                tokv@ == lower_of(title_or_seq_num@),
                forall|k: int|
                    0 <= k < i ==> !title_matches(
                        #[trigger] old(self).titles()[k],
                        title_or_seq_num@,
                    ),
            decreases n - i,
        {
            let folded_ru = fold_lower(self.anime_list[i].names.ru.as_str());
            let folded_en = fold_lower(self.anime_list[i].names.en.as_str());
            let ruv = chars_of(folded_ru.as_str());
            let env = chars_of(folded_en.as_str());
            if contains_chars(&ruv, &tokv) || contains_chars(&env, &tokv) {
                proof {
                    lemma_first_match_at(old(self).titles(), title_or_seq_num@, i as int);
                }
                self.current_anime = Option::Some(i);
                self.current_episode = Option::None;
                self.current_hls = Option::None;
                return Result::Ok(());
            }
            i += 1;
        }
        proof {
            lemma_first_match_none(old(self).titles(), title_or_seq_num@);
        }
        match parse_num(title_or_seq_num.as_str()) {
            NumParse::Num(nv) => {
                if 1 <= nv && nv <= n as u64 {
                    let idx = (nv - 1) as usize;
                    self.current_anime = Option::Some(idx);
                    self.current_episode = Option::None;
                    self.current_hls = Option::None;
                    Result::Ok(())
                } else {
                    let mut m = "Unknown anime sequence number `".to_owned();
                    let num = dec_of_u64(nv);
                    m.append(num.as_str());
                    m.append("`");
                    Result::Err(SourceError::UnknownVariant(m))
                }
            },
            _ => {
                let mut m = "Unknown anime name `".to_owned();
                m.append(title_or_seq_num.as_str());
                m.append("`");
                Result::Err(SourceError::UnknownVariant(m))
            },
        }
    }

    /// The one-line description of the selected anime.
    pub fn anime_info(&self) -> (r: Result<String, SourceError>)
        requires
            self.wf(),
            self.current_anime_index() is Some,
        ensures
            r matches Ok(s) && s@ == self.current_title().line(),
    {
        let i = self.current_anime.unwrap();
        Result::Ok(self.anime_list[i].line())
    }

    /// The episode listing of the selected anime: the label of its range.
    pub fn episodes_info(&self) -> (r: Result<String, SourceError>)
        requires
            self.wf(),
            self.current_anime_index() is Some,
        ensures
            r matches Ok(s) && s@ == self.current_title().player.series.string,
    {
        let i = self.current_anime.unwrap();
        Result::Ok(self.anime_list[i].player.series.line())
    }

    /// Stores an episode if its number is a playlist key of the selected
    /// anime; clears the stream cursor on success.
    fn set_episode_checked(&mut self, e: u16) -> (r: Result<(), SourceError>)
        requires
            old(self).wf(),
            old(self).current_anime_index() is Some,
        ensures
            final(self).wf(),
            final(self).titles() == old(self).titles(),
            final(self).current_anime_index() == old(self).current_anime_index(),
            match spec_episode_member(old(self).current_title(), e) {
                Result::Ok(ep) => r is Ok && final(self).current_episode_num() == Option::Some(ep)
                    && final(self).current_stream() is None,
                Result::Err(msg) => (r matches Err(SourceError::UnknownVariant(m)) && m@ == msg)
                    && same_state(*old(self), *final(self)),
            },
    {
        let i = self.current_anime.unwrap();
        let key = dec_of_u64(e as u64);
        match crate::schemas::playlist_lookup(&self.anime_list[i].player.playlist, key.as_str()) {
            Option::Some(_) => {
                self.current_episode = Option::Some(e);
                self.current_hls = Option::None;
                Result::Ok(())
            },
            Option::None => {
                let mut m = "Unknown episode number `".to_owned();
                m.append(key.as_str());
                m.append("`");
                Result::Err(SourceError::UnknownVariant(m))
            },
        }
    }

    /// Selects an episode. The aliases `first`/`f` and `last`/`l` name the
    /// bounds of the range and are tried before any number; an alias is
    /// equivalent to typing that bound's number, so it too must be a
    /// playlist key. Otherwise the token must be an episode number present
    /// in the playlist.
    pub fn select_episode_as_current(&mut self, seq_num_or_pattern: String) -> (r: Result<
        (),
        SourceError,
    >)
        requires
            old(self).wf(),
            old(self).current_anime_index() is Some,
        ensures
            final(self).wf(),
            final(self).titles() == old(self).titles(),
            final(self).current_anime_index() == old(self).current_anime_index(),
            match spec_select_episode(old(self).current_title(), seq_num_or_pattern@) {
                Result::Ok(e) => r is Ok && final(self).current_episode_num() == Option::Some(e)
                    && final(self).current_stream() is None,
                Result::Err(msg) => (r matches Err(SourceError::UnknownVariant(m)) && m@ == msg)
                    && same_state(*old(self), *final(self)),
            },
    {
        proof {
            reveal_strlit("first");
            reveal_strlit("f");
            reveal_strlit("last");
            reveal_strlit("l");
            assert(lower_seq("first"@) =~= "first"@);
            assert(lower_seq("f"@) =~= "f"@);
            assert(lower_seq("last"@) =~= "last"@);
            assert(lower_seq("l"@) =~= "l"@);
        }
        let tok = seq_num_or_pattern.as_str();
        let i = self.current_anime.unwrap();
        let first = self.anime_list[i].player.series.first;
        let last = self.anime_list[i].player.series.last;
        if eq_ignore_case(tok, "first") || eq_ignore_case(tok, "f") {
            self.set_episode_checked(first)
        } else if eq_ignore_case(tok, "last") || eq_ignore_case(tok, "l") {
            self.set_episode_checked(last)
        } else {
            match parse_num(tok) {
                NumParse::Num(nv) => {
                    if nv > u16::MAX as u64 {
                        Result::Err(
                            SourceError::UnknownVariant(
                                "Episode number must be less than 65535".to_owned(),
                            ),
                        )
                    } else {
                        self.set_episode_checked(nv as u16)
                    }
                },
                NumParse::Overflow => {
                    Result::Err(
                        SourceError::UnknownVariant(
                            "Episode number must be less than 65535".to_owned(),
                        ),
                    )
                },
                _ => {
                    let mut m = "Unknown episode pattern `".to_owned();
                    m.append(tok);
                    m.append("`. Possible patterns: first|f, last|l");
                    Result::Err(SourceError::UnknownVariant(m))
                },
            }
        }
    }

    /// The printable form of the selected episode: its number.
    pub fn episode_info(&self) -> (r: Result<String, SourceError>)
        requires
            self.wf(),
            self.current_episode_num() is Some,
        ensures
            r matches Ok(s) && s@ == dec_str(self.current_episode_num()->0 as nat),
    {
        let e = self.current_episode.unwrap();
        Result::Ok(dec_of_u64(e as u64))
    }

    /// The quality listing of the selected episode: one line per tier it
    /// offers.
    pub fn qualities_info(&self) -> (r: Result<String, SourceError>)
        requires
            self.wf(),
            self.current_episode_num() is Some,
        ensures
            r matches Ok(s) && s@ == spec_qualities_listing(self.current_episode_streams()),
    {
        let i = self.current_anime.unwrap();
        let e = self.current_episode.unwrap();
        let key = dec_of_u64(e as u64);
        let si = match crate::schemas::playlist_lookup(
            &self.anime_list[i].player.playlist,
            key.as_str(),
        ) {
            Option::Some(si) => si,
            Option::None => {
                proof {
                    assert(false);
                }
                return Result::Err(SourceError::ApiError(String::new()));
            },
        };
        let mut s = String::new();
        if si.sd.is_some() {
            s.append("\t1 | sd | 360p | 480p | min\n");
        }
        if si.hd.is_some() {
            s.append("\t2 | hd | 720p | avg\n");
        }
        if si.fhd.is_some() {
            s.append("\t3 | fhd | 1080p | full | max\n");
        }
        Result::Ok(s)
    }

    /// Selects a quality tier by alias and resolves it to the stored stream
    /// fragment of the selected episode. A tier the episode does not offer,
    /// like any unrecognized token, is unknown.
    pub fn select_quality_as_current(&mut self, quality: String) -> (r: Result<(), SourceError>)
        requires
            old(self).wf(),
            old(self).current_episode_num() is Some,
        ensures
            final(self).wf(),
            final(self).titles() == old(self).titles(),
            final(self).current_anime_index() == old(self).current_anime_index(),
            final(self).current_episode_num() == old(self).current_episode_num(),
            match spec_select_quality(old(self).current_episode_streams(), quality@) {
                Result::Ok(f) => r is Ok && final(self).current_stream() == Option::Some(f),
                Result::Err(msg) => (r matches Err(SourceError::UnknownVariant(m)) && m@ == msg)
                    && same_state(*old(self), *final(self)),
            },
    {
        proof {
            reveal_strlit("1");
            reveal_strlit("sd");
            reveal_strlit("360p");
            reveal_strlit("360");
            reveal_strlit("480p");
            reveal_strlit("480");
            reveal_strlit("min");
            reveal_strlit("2");
            reveal_strlit("hd");
            reveal_strlit("720p");
            reveal_strlit("720");
            reveal_strlit("avg");
            reveal_strlit("3");
            reveal_strlit("fhd");
            reveal_strlit("1080p");
            reveal_strlit("1080");
            reveal_strlit("full");
            reveal_strlit("max");
            assert(lower_seq("1"@) =~= "1"@);
            assert(lower_seq("sd"@) =~= "sd"@);
            assert(lower_seq("360p"@) =~= "360p"@);
            assert(lower_seq("360"@) =~= "360"@);
            assert(lower_seq("480p"@) =~= "480p"@);
            assert(lower_seq("480"@) =~= "480"@);
            assert(lower_seq("min"@) =~= "min"@);
            assert(lower_seq("2"@) =~= "2"@);
            assert(lower_seq("hd"@) =~= "hd"@);
            assert(lower_seq("720p"@) =~= "720p"@);
            assert(lower_seq("720"@) =~= "720"@);
            assert(lower_seq("avg"@) =~= "avg"@);
            assert(lower_seq("3"@) =~= "3"@);
            assert(lower_seq("fhd"@) =~= "fhd"@);
            assert(lower_seq("1080p"@) =~= "1080p"@);
            assert(lower_seq("1080"@) =~= "1080"@);
            assert(lower_seq("full"@) =~= "full"@);
            assert(lower_seq("max"@) =~= "max"@);
        }
        let i = self.current_anime.unwrap();
        let e = self.current_episode.unwrap();
        let key = dec_of_u64(e as u64);
        let q = quality.as_str();
        let sd = eq_ignore_case(q, "1") || eq_ignore_case(q, "sd") || eq_ignore_case(q, "360p")
            || eq_ignore_case(q, "360") || eq_ignore_case(q, "480p") || eq_ignore_case(q, "480")
            || eq_ignore_case(q, "min");
        let hd = eq_ignore_case(q, "2") || eq_ignore_case(q, "hd") || eq_ignore_case(q, "720p")
            || eq_ignore_case(q, "720") || eq_ignore_case(q, "avg");
        let fhd = eq_ignore_case(q, "3") || eq_ignore_case(q, "fhd") || eq_ignore_case(q, "1080p")
            || eq_ignore_case(q, "1080") || eq_ignore_case(q, "full") || eq_ignore_case(q, "max");
        let si = match crate::schemas::playlist_lookup(
            &self.anime_list[i].player.playlist,
            key.as_str(),
        ) {
            Option::Some(si) => si,
            Option::None => {
                proof {
                    assert(false);
                }
                return Result::Err(SourceError::ApiError(String::new()));
            },
        };
        let frag: &Option<String> = if sd {
            &si.sd
        } else if hd {
            &si.hd
        } else if fhd {
            &si.fhd
        } else {
            let mut m = "Unknown quality `".to_owned();
            m.append(q);
            m.append("`");
            return Result::Err(SourceError::UnknownVariant(m));
        };
        match frag {
            Option::Some(f) => {
                let hls = f.clone();
                self.current_hls = Option::Some(hls);
                Result::Ok(())
            },
            Option::None => {
                let mut m = "Unknown quality `".to_owned();
                m.append(q);
                m.append("`");
                Result::Err(SourceError::UnknownVariant(m))
            },
        }
    }

    /// The URL to hand to the player: the stored fragment, prefixed with
    /// `https://` unless it already starts with `http`.
    pub fn url_for_stream(&self) -> (r: Result<String, SourceError>)
        requires
            self.current_stream() is Some,
        ensures
            r matches Ok(u) && u@ == spec_stream_url(self.current_stream()->0),
    {
        let hls: &String = match &self.current_hls {
            Option::Some(h) => h,
            Option::None => {
                proof {
                    assert(false);
                }
                return Result::Err(SourceError::ApiError(String::new()));
            },
        };
        let v = chars_of(hls.as_str());
        proof {
            reveal_strlit("http");
        }
        if v.len() >= 4 && v[0] == 'h' && v[1] == 't' && v[2] == 't' && v[3] == 'p' {
            proof {
                assert(hls@.subrange(0, 4) =~= "http"@);
            }
            Result::Ok(hls.clone())
        } else {
            proof {
                if hls@.len() >= 4 {
                    assert(hls@.subrange(0, 4)[0] == hls@[0]);
                    assert(hls@.subrange(0, 4)[1] == hls@[1]);
                    assert(hls@.subrange(0, 4)[2] == hls@[2]);
                    assert(hls@.subrange(0, 4)[3] == hls@[3]);
                }
            }
            let mut u = "https://".to_owned();
            u.append(hls.as_str());
            Result::Ok(u)
        }
    }
}

impl Default for Anilibria {
    /// The same fresh source as [`Anilibria::new`].
    fn default() -> (r: Self)
        ensures
            r.wf(),
            r.titles() == Seq::<AnimeV>::empty(),
            r.current_anime_index() is None,
            r.current_episode_num() is None,
            r.current_stream() is None,
    {
        Anilibria::new()
    }
}

} // verus!
