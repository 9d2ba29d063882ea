//! The dialog driver: the per-stage routines and the stepping machine that
//! sequences them.
//!
//! The driver is synchronous and pure: it never reads a terminal, never
//! touches the network and never spawns a process. Each [`Dialog::step`]
//! takes one outside event — a line the runner read, a search response it
//! fetched, a probe or launch outcome — and answers with the next thing to
//! do. The runner is a thin loop around it.

use vstd::prelude::*;
use vstd::string::StringExecFns;
use crate::anilibria::{Anilibria, same_state, spec_name_matches, spec_qualities_listing,
    spec_select_anime, spec_select_episode, spec_select_quality, spec_stream_url};
use crate::data::Data;
use crate::json::json_of;
use crate::language::{Language, spec_language_of};
use crate::parser::spec_response_titles;
use crate::player::{Player, players, spec_player_doc, spec_player_of};
use crate::prompt::{IndexOutcome, resolve_index, spec_clamp_index, spec_negative_msg,
    spec_overflow_msg};
use crate::state::{State, spec_state_name, spec_state_of};
use crate::state_machine::StateMachine;
use crate::text::{dec_str, dec_value, is_negative_token, is_numeric_token, line_view,
    normalized_line, spec_normalized, token_digits};

verus! {

/// The semantic output channels of the terminal layer.
pub enum Channel {
    Input,
    VariantHeadline,
    Variant,
    Info,
    Warning,
    Error,
}

/// One message for the runner to print on a channel.
pub struct Msg {
    pub channel: Channel,
    pub text: String,
}

/// What the dialog asks its runner to do next.
pub enum Op {
    /// Read one line and hand it back as `Event::Line`.
    Read,
    /// Fetch the search response for this query; hand back `Event::Fetched`.
    FetchSearch(String),
    /// Check whether the player is installed; hand back `Event::Probed`.
    Probe(Player),
    /// Launch the player on the URL; hand back `Event::Launched`.
    Launch(Player, String),
    /// Stop: the dialog is over.
    Quit,
}

/// The messages to print, then the operation to perform.
pub struct Action {
    pub msgs: Vec<Msg>,
    pub op: Op,
}

/// What the runner hands back.
pub enum Event {
    /// A line read from the user; `None` when reading failed.
    Line(Option<String>),
    /// A search response: the body text, or the transport error's text.
    Fetched(Result<String, String>),
    /// Whether the chosen player is installed.
    Probed(bool),
    /// The outcome of launching the player.
    Launched(Result<(), String>),
}

/// What one prompt event resolves to within a stage.
pub enum StageOutcome<T> {
    /// The stage is done with this value.
    Chosen(T),
    /// Empty input: go back one stage.
    Back,
    /// The input did not resolve; report and ask again.
    Retry(String),
}

/// The language tally shown at the first stage: the languages offered
/// across the sources, each with the number of sources serving it, most
/// served first. The one source kind is Russian, so the tally is a single
/// entry, or nothing when no sources are given.
pub open spec fn spec_language_tally(sources: Seq<Anilibria>) -> Seq<(Language, u64)> {
    if sources.len() > 0 {
        seq![(Language::Russian, sources.len() as u64)]
    } else {
        Seq::empty()
    }
}

/// Tallies the languages of the sources for the opening listing.
pub fn tally_languages(sources: &Vec<Anilibria>) -> (r: Vec<(Language, u64)>)
    ensures
        r@ == spec_language_tally(sources@),
{
    let mut r: Vec<(Language, u64)> = Vec::new();
    if sources.len() > 0 {
        r.push((Language::Russian, sources.len() as u64));
        proof {
            assert(r@ =~= seq![(Language::Russian, sources@.len() as u64)]);
        }
    } else {
        proof {
            assert(r@ =~= Seq::<(Language, u64)>::empty());
        }
    }
    r
}

/// Whether sources of this catalog pass a language filter.
pub open spec fn source_included(filter: Language) -> bool {
    filter == Language::All || filter == Language::Russian
}

/// The positions of the sources that serve the chosen language. Every
/// source of this catalog is Russian, so the filter keeps all or none.
pub fn filter_sources(sources: &Vec<Anilibria>, language: &Language) -> (r: Vec<usize>)
    ensures
        source_included(*language) ==> r@.len() == sources@.len() && (forall|k: int|
            0 <= k < r@.len() ==> r@[k] == k),
        !source_included(*language) ==> r@.len() == 0,
{
    let mut r: Vec<usize> = Vec::new();
    let keep = match language {
        Language::All => true,
        Language::Russian => true,
    };
    if keep {
        let n = sources.len();
        let mut i: usize = 0;
        while i < n
            invariant
                i <= n,
                n == sources.len(),
                r@.len() == i,
                forall|k: int| 0 <= k < i ==> r@[k] == k,
            decreases n - i,
        {
            r.push(i);
            i += 1;
        }
    }
    r
}

/// Resolves one language-prompt line: empty input goes back; an alias is
/// tried first; then a one-based index, clamped to the listing's ends; a
/// number out of machine range or an unknown word is reported for another
/// try.
pub fn select_language(languages: &Vec<(Language, u64)>, line: &Option<String>) -> (r: StageOutcome<
    Language,
>)
    ensures
        match spec_normalized(line_view(line)) {
            Option::None => r is Back,
            Option::Some(t) => match spec_language_of(t) {
                Option::Some(l) => r matches StageOutcome::Chosen(x) && x == l,
                Option::None => {
                    if is_numeric_token(t) && dec_value(token_digits(t)) <= u64::MAX
                        && languages@.len() > 0 {
                        r matches StageOutcome::Chosen(x) && x == languages@[spec_clamp_index(
                            dec_value(token_digits(t)),
                            languages@.len() as int,
                        )].0
                    } else if is_numeric_token(t) && dec_value(token_digits(t)) > u64::MAX {
                        r matches StageOutcome::Retry(m) && m@ == spec_overflow_msg()
                    } else if is_negative_token(t) {
                        r matches StageOutcome::Retry(m) && m@ == spec_negative_msg()
                    } else {
                        r matches StageOutcome::Retry(m) && m@ == "Unknown language `"@ + t + "`"@
                    }
                },
            },
        },
{
    let t = match normalized_line(line) {
        Option::Some(t) => t,
        Option::None => {
            return StageOutcome::Back;
        },
    };
    match Language::try_from(t.as_str()) {
        Result::Ok(l) => StageOutcome::Chosen(l),
        Result::Err(e) => match resolve_index(t.as_str(), languages.len()) {
            IndexOutcome::Chosen(i) => StageOutcome::Chosen(languages[i].0),
            IndexOutcome::Invalid(m) => StageOutcome::Retry(m),
            IndexOutcome::NotIndex => StageOutcome::Retry(e.message()),
        },
    }
}

/// Resolves one source-prompt line against the filtered listing: empty
/// input goes back; a name alias wins and takes the first listed source;
/// then a one-based index into the listing, clamped to its ends. The result
/// is a position into the full source list.
pub fn select_source(sources: &Vec<Anilibria>, filtered: &Vec<usize>, line: &Option<String>) -> (r:
    StageOutcome<usize>)
    requires
        forall|k: int| 0 <= k < filtered@.len() ==> filtered@[k] < sources@.len(),
    ensures
        match spec_normalized(line_view(line)) {
            Option::None => r is Back,
            Option::Some(t) => {
                if spec_name_matches(t) && filtered@.len() > 0 {
                    r matches StageOutcome::Chosen(i) && i == filtered@[0]
                } else if is_numeric_token(t) && dec_value(token_digits(t)) <= u64::MAX
                    && filtered@.len() > 0 {
                    r matches StageOutcome::Chosen(i) && i == filtered@[spec_clamp_index(
                        dec_value(token_digits(t)),
                        filtered@.len() as int,
                    )]
                } else if is_numeric_token(t) && dec_value(token_digits(t)) > u64::MAX {
                    r matches StageOutcome::Retry(m) && m@ == spec_overflow_msg()
                } else if is_negative_token(t) {
                    r matches StageOutcome::Retry(m) && m@ == spec_negative_msg()
                } else {
                    r matches StageOutcome::Retry(m) && m@ == "Unknown source `"@ + t + "`"@
                }
            },
        },
        r matches StageOutcome::Chosen(i) ==> i < sources@.len(),
{
    let t = match normalized_line(line) {
        Option::Some(t) => t,
        Option::None => {
            return StageOutcome::Back;
        },
    };
    if filtered.len() > 0 {
        let probe = &sources[filtered[0]];
        if probe.name_matches(t.as_str()) {
            return StageOutcome::Chosen(filtered[0]);
        }
    }
    match resolve_index(t.as_str(), filtered.len()) {
        IndexOutcome::Chosen(i) => StageOutcome::Chosen(filtered[i]),
        IndexOutcome::Invalid(m) => StageOutcome::Retry(m),
        IndexOutcome::NotIndex => {
            let mut m = "Unknown source `".to_owned();
            m.append(t.as_str());
            m.append("`");
            StageOutcome::Retry(m)
        },
    }
}

/// Applies one anime-choice line to the source: empty input goes back; an
/// unresolved token is reported for another try; a resolved one becomes the
/// current anime.
pub fn select_anime(source: &mut Anilibria, line: &Option<String>) -> (r: StageOutcome<()>)
    requires
        old(source).wf(),
    ensures
        final(source).wf(),
        final(source).titles() == old(source).titles(),
        spec_normalized(line_view(line)) is None ==> *final(source) == *old(source),
        match spec_normalized(line_view(line)) {
            Option::None => r is Back && same_state(*old(source), *final(source)),
            Option::Some(t) => match spec_select_anime(old(source).titles(), t) {
                Result::Ok(i) => r matches StageOutcome::Chosen(_)
                    && final(source).current_anime_index() == Option::Some(i)
                    && final(source).current_episode_num() is None
                    && final(source).current_stream() is None,
                Result::Err(msg) => (r matches StageOutcome::Retry(m) && m@ == msg) && same_state(
                    *old(source),
                    *final(source),
                ),
            },
        },
{
    let t = match normalized_line(line) {
        Option::Some(t) => t,
        Option::None => {
            return StageOutcome::Back;
        },
    };
    match source.select_anime_as_current(t) {
        Result::Ok(_) => StageOutcome::Chosen(()),
        Result::Err(e) => StageOutcome::Retry(e.message()),
    }
}

/// Applies one episode-choice line to the source: empty input goes back; an
/// unresolved token is reported for another try; a resolved number becomes
/// the current episode.
pub fn select_episode(source: &mut Anilibria, line: &Option<String>) -> (r: StageOutcome<()>)
    requires
        old(source).wf(),
        old(source).current_anime_index() is Some,
    ensures
        final(source).wf(),
        final(source).titles() == old(source).titles(),
        final(source).current_anime_index() == old(source).current_anime_index(),
        spec_normalized(line_view(line)) is None ==> *final(source) == *old(source),
        match spec_normalized(line_view(line)) {
            Option::None => r is Back && same_state(*old(source), *final(source)),
            Option::Some(t) => match spec_select_episode(old(source).current_title(), t) {
                Result::Ok(e) => r matches StageOutcome::Chosen(_)
                    && final(source).current_episode_num() == Option::Some(e)
                    && final(source).current_stream() is None,
                Result::Err(msg) => (r matches StageOutcome::Retry(m) && m@ == msg) && same_state(
                    *old(source),
                    *final(source),
                ),
            },
        },
{
    let t = match normalized_line(line) {
        Option::Some(t) => t,
        Option::None => {
            return StageOutcome::Back;
        },
    };
    match source.select_episode_as_current(t) {
        Result::Ok(_) => StageOutcome::Chosen(()),
        Result::Err(e) => StageOutcome::Retry(e.message()),
    }
}

/// Applies one quality-choice line to the source: empty input goes back; an
/// unknown or absent tier is reported for another try; a resolved tier
/// stores the stream.
pub fn select_quality(source: &mut Anilibria, line: &Option<String>) -> (r: StageOutcome<()>)
    requires
        old(source).wf(),
        old(source).current_episode_num() is Some,
    ensures
        final(source).wf(),
        final(source).titles() == old(source).titles(),
        final(source).current_anime_index() == old(source).current_anime_index(),
        final(source).current_episode_num() == old(source).current_episode_num(),
        spec_normalized(line_view(line)) is None ==> *final(source) == *old(source),
        match spec_normalized(line_view(line)) {
            Option::None => r is Back && same_state(*old(source), *final(source)),
            Option::Some(t) => match spec_select_quality(old(source).current_episode_streams(), t) {
                Result::Ok(f) => r matches StageOutcome::Chosen(_)
                    && final(source).current_stream() == Option::Some(f),
                Result::Err(msg) => (r matches StageOutcome::Retry(m) && m@ == msg) && same_state(
                    *old(source),
                    *final(source),
                ),
            },
        },
{
    let t = match normalized_line(line) {
        Option::Some(t) => t,
        Option::None => {
            return StageOutcome::Back;
        },
    };
    match source.select_quality_as_current(t) {
        Result::Ok(_) => StageOutcome::Chosen(()),
        Result::Err(e) => StageOutcome::Retry(e.message()),
    }
}

/// Resolves one player-prompt line: empty input goes back; the player's
/// name is tried first, then a one-based index into the player listing;
/// anything else is reported for another try.
pub fn select_player(line: &Option<String>) -> (r: StageOutcome<Player>)
    ensures
        match spec_normalized(line_view(line)) {
            Option::None => r is Back,
            Option::Some(t) => match spec_player_of(t) {
                Option::Some(p) => r matches StageOutcome::Chosen(x) && x == p,
                Option::None => {
                    if is_numeric_token(t) && dec_value(token_digits(t)) <= u64::MAX && 1
                        <= dec_value(token_digits(t)) <= players_len() {
                        r matches StageOutcome::Chosen(x) && x == Player::Mpv
                    } else {
                        r matches StageOutcome::Retry(m) && m@ == spec_player_retry(t)
                    }
                },
            },
        },
{
    let t = match normalized_line(line) {
        Option::Some(t) => t,
        Option::None => {
            return StageOutcome::Back;
        },
    };
    match Player::try_from(t.as_str()) {
        Result::Ok(p) => StageOutcome::Chosen(p),
        Result::Err(e) => {
            let list = players();
            match crate::text::parse_num(t.as_str()) {
                crate::text::NumParse::Num(n) => {
                    if 1 <= n && n <= list.len() as u64 {
                        StageOutcome::Chosen(list[(n - 1) as usize])
                    } else {
                        let mut m = "Unknown player sequence number `".to_owned();
                        let num = crate::text::dec_of_u64(n);
                        m.append(num.as_str());
                        m.append("`");
                        StageOutcome::Retry(m)
                    }
                },
                _ => StageOutcome::Retry(e.message()),
            }
        },
    }
}

/// How many players the listing offers.
pub open spec fn players_len() -> nat {
    1
}

/// What the launch stage hands the runner: the chosen player and the final
/// stream URL.
pub fn launch_player(source: &Anilibria, player: Player) -> (r: (Player, String))
    requires
        source.current_stream() is Some,
    ensures
        r.0 == player,
        r.1@ == spec_stream_url(source.current_stream()->0),
{
    let url = match source.url_for_stream() {
        Result::Ok(u) => u,
        Result::Err(_) => {
            proof {
                assert(false);
            }
            String::new()
        },
    };
    (player, url)
}

/// The farewell printed when the user leaves the dialog at the first stage.
pub fn finish() -> (r: String)
    ensures
        r@ == "\nBye, peach!\n"@,
{
    "\nBye, peach!\n".to_owned()
}

/// Where the dialog stands inside its current stage.
pub enum Phase {
    AwaitLanguage,
    AwaitSource,
    AwaitAnimeName,
    /// A search was sent for this query; its response is awaited.
    AwaitSearch(String),
    AwaitAnimeChoice,
    AwaitEpisode,
    AwaitQuality,
    AwaitPlayer,
    /// The chosen player awaits its installation probe.
    AwaitProbe(Player),
    AwaitLaunch,
    AwaitNextAction,
    Done,
}

/// The stage a phase belongs to.
pub open spec fn phase_state(ph: Phase) -> State {
    match ph {
        Phase::AwaitLanguage => State::SelectLanguage,
        Phase::AwaitSource => State::SelectSource,
        Phase::AwaitAnimeName => State::SelectAnime,
        Phase::AwaitSearch(_) => State::SelectAnime,
        Phase::AwaitAnimeChoice => State::SelectAnime,
        Phase::AwaitEpisode => State::SelectEpisode,
        Phase::AwaitQuality => State::SelectQuality,
        Phase::AwaitPlayer => State::SelectPlayer,
        Phase::AwaitProbe(_) => State::SelectPlayer,
        Phase::AwaitLaunch => State::LaunchPlayer,
        Phase::AwaitNextAction => State::LaunchPlayer,
        Phase::Done => State::SelectLanguage,
    }
}

/// What the session data must hold before a stage can run.
pub open spec fn state_req(data: Data, s: State) -> bool {
    match s {
        State::SelectLanguage => true,
        State::SelectSource => true,
        State::SelectAnime => data.source is Some,
        State::SelectEpisode => data.source matches Some(src) && src.current_anime_index() is Some,
        State::SelectQuality => data.source matches Some(src) && src.current_anime_index() is Some
            && src.current_episode_num() is Some,
        State::SelectPlayer => data.source matches Some(src) && src.current_stream() is Some,
        State::LaunchPlayer => (data.source matches Some(src) && src.current_stream() is Some)
            && data.player is Some,
    }
}

/// The phase a stage starts in when it becomes current.
pub open spec fn spec_entry_phase(s: State) -> Phase {
    match s {
        State::SelectLanguage => Phase::AwaitLanguage,
        State::SelectSource => Phase::AwaitSource,
        State::SelectAnime => Phase::AwaitAnimeName,
        State::SelectEpisode => Phase::AwaitEpisode,
        State::SelectQuality => Phase::AwaitQuality,
        State::SelectPlayer => Phase::AwaitPlayer,
        State::LaunchPlayer => Phase::AwaitLaunch,
    }
}

fn entry_phase(s: State) -> (r: Phase)
    ensures
        r == spec_entry_phase(s),
{
    match s {
        State::SelectLanguage => Phase::AwaitLanguage,
        State::SelectSource => Phase::AwaitSource,
        State::SelectAnime => Phase::AwaitAnimeName,
        State::SelectEpisode => Phase::AwaitEpisode,
        State::SelectQuality => Phase::AwaitQuality,
        State::SelectPlayer => Phase::AwaitPlayer,
        State::LaunchPlayer => Phase::AwaitLaunch,
    }
}

/// The event kind each phase awaits.
pub open spec fn event_fits(ph: Phase, ev: Event) -> bool {
    match ph {
        Phase::AwaitSearch(_) => ev is Fetched,
        Phase::AwaitProbe(_) => ev is Probed,
        Phase::AwaitLaunch => ev is Launched,
        Phase::Done => false,
        _ => ev is Line,
    }
}

/// The language one prompt line resolves to, aliases before clamped indexes.
pub open spec fn language_resolution(langs: Seq<(Language, u64)>, t: Seq<char>) -> Option<
    Language,
> {
    match spec_language_of(t) {
        Option::Some(l) => Option::Some(l),
        Option::None => {
            if is_numeric_token(t) && dec_value(token_digits(t)) <= u64::MAX && langs.len() > 0 {
                Option::Some(
                    langs[spec_clamp_index(dec_value(token_digits(t)), langs.len() as int)].0,
                )
            } else {
                Option::None
            }
        },
    }
}

/// Whether a source-prompt line resolves at all against a listing.
pub open spec fn source_resolves(n_listed: int, t: Seq<char>) -> bool {
    n_listed > 0 && (spec_name_matches(t) || (is_numeric_token(t) && dec_value(token_digits(t))
        <= u64::MAX))
}

/// The player one prompt line resolves to, its name before its index.
pub open spec fn player_resolution(t: Seq<char>) -> Option<Player> {
    match spec_player_of(t) {
        Option::Some(p) => Option::Some(p),
        Option::None => {
            if is_numeric_token(t) && dec_value(token_digits(t)) <= u64::MAX && 1 <= dec_value(
                token_digits(t),
            ) <= players_len() {
                Option::Some(Player::Mpv)
            } else {
                Option::None
            }
        },
    }
}

/// At the language prompt an exact alias wins over any index reading: a
/// token that names a language resolves to that language whatever the
/// listing holds.
pub proof fn lemma_alias_wins_language(langs: Seq<(Language, u64)>, t: Seq<char>)
    requires
        spec_language_of(t) is Some,
    ensures
        language_resolution(langs, t) == spec_language_of(t),
{
}

/// At the player prompt the player's name wins over any index reading.
pub proof fn lemma_alias_wins_player(t: Seq<char>)
    requires
        spec_player_of(t) is Some,
    ensures
        player_resolution(t) == spec_player_of(t),
{
}

/// At the post-launch menu a stage alias wins over any index reading.
pub proof fn lemma_alias_wins_next_action(t: Seq<char>)
    requires
        spec_state_of(t) matches Some(s) && (s is SelectAnime || s is SelectEpisode || s
            is SelectQuality),
    ensures
        next_action_resolution(t) == spec_state_of(t),
{
}

/// The stage the post-launch menu rewinds to: anime, episode or quality, by
/// alias or by its place in that listing.
pub open spec fn next_action_resolution(t: Seq<char>) -> Option<State> {
    match spec_state_of(t) {
        Option::Some(s) => if s is SelectAnime || s is SelectEpisode || s is SelectQuality {
            Option::Some(s)
        } else {
            Option::None
        },
        Option::None => {
            if is_numeric_token(t) && dec_value(token_digits(t)) <= u64::MAX {
                let n = dec_value(token_digits(t));
                if n == 1 {
                    Option::Some(State::SelectAnime)
                } else if n == 2 {
                    Option::Some(State::SelectEpisode)
                } else if n == 3 {
                    Option::Some(State::SelectQuality)
                } else {
                    Option::None
                }
            } else {
                Option::None
            }
        },
    }
}

/// Resolves one post-launch menu line: empty input goes back one stage; the
/// aliases `anime`, `episode` and `quality`, or their places in the menu,
/// name the stage to rewind to.
pub fn select_next_action(line: &Option<String>) -> (r: StageOutcome<State>)
    ensures
        match spec_normalized(line_view(line)) {
            Option::None => r is Back,
            Option::Some(t) => match next_action_resolution(t) {
                Option::Some(s) => r matches StageOutcome::Chosen(x) && x == s,
                Option::None => r matches StageOutcome::Retry(m) && m@ == "Unknown next action `"@
                    + t + "`"@,
            },
        },
{
    let t = match normalized_line(line) {
        Option::Some(t) => t,
        Option::None => {
            return StageOutcome::Back;
        },
    };
    let chosen: Option<State> = match State::try_from(t.as_str()) {
        Result::Ok(s) => match s {
            State::SelectAnime => Option::Some(State::SelectAnime),
            State::SelectEpisode => Option::Some(State::SelectEpisode),
            State::SelectQuality => Option::Some(State::SelectQuality),
            _ => Option::None,
        },
        Result::Err(_) => match crate::text::parse_num(t.as_str()) {
            crate::text::NumParse::Num(n) => {
                if n == 1 {
                    Option::Some(State::SelectAnime)
                } else if n == 2 {
                    Option::Some(State::SelectEpisode)
                } else if n == 3 {
                    Option::Some(State::SelectQuality)
                } else {
                    Option::None
                }
            },
            _ => Option::None,
        },
    };
    match chosen {
        Option::Some(s) => StageOutcome::Chosen(s),
        Option::None => {
            let mut m = "Unknown next action `".to_owned();
            m.append(t.as_str());
            m.append("`");
            StageOutcome::Retry(m)
        },
    }
}

/// The prompt of each phase that reads a line.
pub open spec fn spec_phase_prompt(ph: Phase) -> Seq<char> {
    match ph {
        Phase::AwaitLanguage => "\nSelect a language: "@,
        Phase::AwaitSource => "\nSelect a source: "@,
        Phase::AwaitAnimeName => "Enter anime name: "@,
        Phase::AwaitAnimeChoice => "\nSelect anime: "@,
        Phase::AwaitEpisode => "\nSelect an episode: "@,
        Phase::AwaitQuality => "\nSelect a quality: "@,
        Phase::AwaitPlayer => "\nSelect a player: "@,
        Phase::AwaitNextAction => "\nSelect the next action: "@,
        _ => Seq::empty(),
    }
}

/// One line of the language listing: the one-based position, the name, and
/// how many sources serve the language.
pub open spec fn spec_language_line(k: int, e: (Language, u64)) -> Seq<char> {
    "\t"@ + dec_str((k + 1) as nat) + ". "@ + "Russian"@ + " ("@ + dec_str(e.1 as nat)
        + " sources)\n"@
}

/// One line of the source listing: the one-based position and the source's
/// display form.
pub open spec fn spec_source_line(k: int) -> Seq<char> {
    "\t"@ + dec_str((k + 1) as nat) + ". "@ + ("Anilibria ("@ + "Russian"@ + ")"@) + "\n"@
}

/// The two messages reporting an unresolved token: the warning, then the
/// phase's prompt again.
pub open spec fn retry_msgs_ok(ph: Phase, warning: Seq<char>, msgs: Seq<Msg>) -> bool {
    &&& msgs.len() == 2
    &&& msgs[0].channel is Warning
    &&& msgs[0].text@ == warning
    &&& msgs[1].channel is Input
    &&& msgs[1].text@ == spec_phase_prompt(ph)
}

/// The report when a language token resolves to nothing.
pub open spec fn spec_language_retry(t: Seq<char>) -> Seq<char> {
    if is_numeric_token(t) && dec_value(token_digits(t)) > u64::MAX {
        spec_overflow_msg()
    } else if is_negative_token(t) {
        spec_negative_msg()
    } else {
        "Unknown language `"@ + t + "`"@
    }
}

/// The report when a source token resolves to nothing.
pub open spec fn spec_source_retry(t: Seq<char>) -> Seq<char> {
    if is_numeric_token(t) && dec_value(token_digits(t)) > u64::MAX {
        spec_overflow_msg()
    } else if is_negative_token(t) {
        spec_negative_msg()
    } else {
        "Unknown source `"@ + t + "`"@
    }
}

/// The report when a player token resolves to nothing.
pub open spec fn spec_player_retry(t: Seq<char>) -> Seq<char> {
    if is_numeric_token(t) && dec_value(token_digits(t)) <= u64::MAX {
        "Unknown player sequence number `"@ + dec_str(dec_value(token_digits(t))) + "`"@
    } else {
        "Unknown player `"@ + t + "`"@
    }
}

/// The two messages of a failed search: the report, then the name prompt
/// again.
pub open spec fn search_fail_msgs_ok(msgs: Seq<Msg>) -> bool {
    &&& msgs.len() == 2
    &&& msgs[0].channel is Error
    &&& msgs[1].channel is Input
    &&& msgs[1].text@ == "Enter anime name: "@
}

/// The messages a freshly entered phase prints: its listing, then its
/// prompt; nothing for the phases that wait on the runner.
pub open spec fn entry_msgs_ok(d: Dialog, sources: Seq<Anilibria>, msgs: Seq<Msg>) -> bool {
    match d.phase {
        Phase::AwaitLanguage => {
            let n = d.languages@.len() as int;
            &&& msgs.len() == n + 3
            &&& msgs[0].channel is VariantHeadline
            &&& msgs[0].text@ == "Available languages"@
            &&& msgs[1].channel is Info
            &&& msgs[1].text@ == " (enter empty input to back previous state):\n"@
            &&& (forall|k: int|
                0 <= k < n ==> (#[trigger] msgs[k + 2]).channel is Variant && msgs[k + 2].text@
                    == spec_language_line(k, d.languages@[k]))
            &&& msgs[n + 2].channel is Input
            &&& msgs[n + 2].text@ == spec_phase_prompt(d.phase)
        },
        Phase::AwaitSource => {
            let n = if source_included(d.machine.data.language) {
                sources.len() as int
            } else {
                0int
            };
            &&& msgs.len() == n + 2
            &&& msgs[0].channel is VariantHeadline
            &&& msgs[0].text@ == "Available sources:\n"@
            &&& (forall|k: int|
                0 <= k < n ==> (#[trigger] msgs[k + 1]).channel is Variant && msgs[k + 1].text@
                    == spec_source_line(k))
            &&& msgs[n + 1].channel is Input
            &&& msgs[n + 1].text@ == spec_phase_prompt(d.phase)
        },
        Phase::AwaitAnimeName => msgs.len() == 1 && msgs[0].channel is Input && msgs[0].text@
            == spec_phase_prompt(d.phase),
        Phase::AwaitSearch(_) => msgs.len() == 0,
        Phase::AwaitAnimeChoice => msgs.len() == 1 && msgs[0].channel is Input && msgs[0].text@
            == spec_phase_prompt(d.phase),
        Phase::AwaitEpisode => {
            &&& msgs.len() == 2
            &&& msgs[0].channel is VariantHeadline
            &&& (d.machine.data.source matches Some(s) && msgs[0].text@ == "Episodes: "@
                + s.current_title().player.series.string)
            &&& msgs[1].channel is Input
            &&& msgs[1].text@ == spec_phase_prompt(d.phase)
        },
        Phase::AwaitQuality => {
            &&& msgs.len() == 2
            &&& msgs[0].channel is VariantHeadline
            &&& (d.machine.data.source matches Some(s) && msgs[0].text@ == "Qualities:\n"@
                + spec_qualities_listing(s.current_episode_streams()))
            &&& msgs[1].channel is Input
            &&& msgs[1].text@ == spec_phase_prompt(d.phase)
        },
        Phase::AwaitPlayer => {
            &&& msgs.len() == 2
            &&& msgs[0].channel is VariantHeadline
            &&& msgs[0].text@ == "Players:\n"@ + "\t"@ + "MPV"@ + "\n"@
            &&& msgs[1].channel is Input
            &&& msgs[1].text@ == spec_phase_prompt(d.phase)
        },
        Phase::AwaitProbe(_) => msgs.len() == 0,
        Phase::AwaitLaunch => msgs.len() == 1 && msgs[0].channel is Info && msgs[0].text@
            == "\nLaunch the process! Wait opening...\n"@,
        Phase::AwaitNextAction => {
            &&& msgs.len() == 2
            &&& msgs[0].channel is VariantHeadline
            &&& msgs[0].text@ == "Where to go next:\n\tanime | episode | quality\n"@
            &&& msgs[1].channel is Input
            &&& msgs[1].text@ == spec_phase_prompt(d.phase)
        },
        Phase::Done => msgs.len() == 1 && msgs[0].channel is Info && msgs[0].text@
            == "\nBye, peach!\n"@,
    }
}

/// One step of the dialog, as a relation: everything [`Dialog::step`]
/// promises of its pre-state, the event, its post-state and its action,
/// gathered into one predicate so that whole runs can be stated.
pub open spec fn step_rel(
    pre: Dialog,
    sources: Seq<Anilibria>,
    ev: Event,
    post: Dialog,
    a: Action,
) -> bool {
    &&& post.inv()
    &&& op_fits(post, a.op)
    &&& post.languages == pre.languages
    // the language stage
    &&& (
            pre.phase is AwaitLanguage ==> (ev matches Event::Line(l) ==> (match
            spec_normalized(line_view(&l)) {
                Option::None => post.phase is Done && entry_msgs_ok(
                    post,
                    sources,
                    a.msgs@,
                ),
                Option::Some(t) => match language_resolution(pre.languages@, t) {
                    Option::Some(lang) => post.phase is AwaitSource
                        && post.machine.state == State::SelectSource
                        && post.machine.data.language == lang && entry_msgs_ok(
                        post,
                        sources,
                        a.msgs@,
                    ),
                    Option::None => post.phase is AwaitLanguage
                        && post.machine == pre.machine && retry_msgs_ok(
                        post.phase,
                        spec_language_retry(t),
                        a.msgs@,
                    ),
                },
            }))
    )
    // empty input below the first stage pops one stage
    &&& (
            !(pre.phase is AwaitLanguage) ==> (ev matches Event::Line(l) ==> (
            spec_normalized(line_view(&l)) is None ==> popped(pre, post)
                && entry_msgs_ok(post, sources, a.msgs@)))
    )
    // the source stage
    &&& (
            pre.phase is AwaitSource ==> (ev matches Event::Line(l) ==> (match
            spec_normalized(line_view(&l)) {
                Option::None => true,
                Option::Some(t) => {
                    let listed = if source_included(pre.machine.data.language) {
                        sources.len() as int
                    } else {
                        0
                    };
                    if source_resolves(listed, t) {
                        &&& post.phase is AwaitAnimeName
                        &&& post.machine.state == State::SelectAnime
                        &&& post.machine.data.source is Some
                        &&& dsource(post).titles().len() == 0
                        &&& dsource(post).current_anime_index() is None
                        &&& dsource(post).current_episode_num() is None
                        &&& dsource(post).current_stream() is None
                        &&& entry_msgs_ok(post, sources, a.msgs@)
                    } else {
                        post.phase is AwaitSource && post.machine == pre.machine && retry_msgs_ok(
                            post.phase,
                            spec_source_retry(t),
                            a.msgs@,
                        )
                    }
                },
            }))
    )
    // a typed anime name becomes the search query
    &&& (
            pre.phase is AwaitAnimeName ==> (ev matches Event::Line(l) ==> (match
            spec_normalized(line_view(&l)) {
                Option::None => true,
                Option::Some(t) => (post.phase matches Phase::AwaitSearch(q) && q@ == t)
                    && post.machine == pre.machine && entry_msgs_ok(
                    post,
                    sources,
                    a.msgs@,
                ),
            }))
    )
    // the search response
    &&& (
            pre.phase matches Phase::AwaitSearch(q) ==> (ev matches Event::Fetched(res)
                ==> (match res {
                Result::Ok(body) => match json_of(body@) {
                    Option::Some(tree) => match spec_response_titles(tree) {
                        Option::Some(list) => if list.len() > 0 {
                            &&& post.phase is AwaitAnimeChoice
                            &&& post.machine.state == State::SelectAnime
                            &&& dsource(post).titles() == list
                            &&& dsource(post).current_anime_index() is None
                            &&& a.msgs@.len() == 2
                            &&& a.msgs@[0].channel is VariantHeadline
                            &&& a.msgs@[0].text@ == "Anime list:\n"@ + crate::anilibria::spec_titles_listing(list)
                            &&& a.msgs@[1].channel is Input
                            &&& a.msgs@[1].text@ == spec_phase_prompt(post.phase)
                        } else {
                            &&& post.phase is AwaitAnimeName
                            &&& same_state(dsource(pre), dsource(post))
                            &&& search_fail_msgs_ok(a.msgs@)
                            &&& a.msgs@[0].text@ == crate::anilibria::spec_empty_search_msg(q@)
                                + "\n"@
                        },
                        Option::None => {
                            &&& post.phase is AwaitAnimeName
                            &&& same_state(dsource(pre), dsource(post))
                            &&& search_fail_msgs_ok(a.msgs@)
                            &&& a.msgs@[0].text@
                                == "Parse error: unexpected structure of the anime list"@ + "\n"@
                        },
                    },
                    Option::None => post.phase is AwaitAnimeName && same_state(
                        dsource(pre),
                        dsource(post),
                    ) && search_fail_msgs_ok(a.msgs@),
                },
                Result::Err(e) => {
                    &&& post.phase is AwaitAnimeName
                    &&& same_state(dsource(pre), dsource(post))
                    &&& search_fail_msgs_ok(a.msgs@)
                    &&& a.msgs@[0].text@ == "Api error: "@ + e@ + "\n"@
                },
            }))
    )
    // the anime choice
    &&& (
            pre.phase is AwaitAnimeChoice ==> (ev matches Event::Line(l) ==> (match
            spec_normalized(line_view(&l)) {
                Option::None => true,
                Option::Some(t) => match spec_select_anime(dsource(pre).titles(), t) {
                    Result::Ok(i) => post.phase is AwaitEpisode && post.machine.state
                        == State::SelectEpisode && dsource(post).current_anime_index()
                        == Option::Some(i) && entry_msgs_ok(post, sources, a.msgs@),
                    Result::Err(msg) => post.phase is AwaitAnimeChoice && same_state(
                        dsource(pre),
                        dsource(post),
                    ) && retry_msgs_ok(post.phase, msg, a.msgs@),
                },
            }))
    )
    // the episode choice
    &&& (
            pre.phase is AwaitEpisode ==> (ev matches Event::Line(l) ==> (match
            spec_normalized(line_view(&l)) {
                Option::None => true,
                Option::Some(t) => match spec_select_episode(
                    dsource(pre).current_title(),
                    t,
                ) {
                    Result::Ok(e) => post.phase is AwaitQuality && post.machine.state
                        == State::SelectQuality && dsource(post).current_episode_num()
                        == Option::Some(e) && entry_msgs_ok(post, sources, a.msgs@),
                    Result::Err(msg) => post.phase is AwaitEpisode && same_state(
                        dsource(pre),
                        dsource(post),
                    ) && retry_msgs_ok(post.phase, msg, a.msgs@),
                },
            }))
    )
    // the quality choice
    &&& (
            pre.phase is AwaitQuality ==> (ev matches Event::Line(l) ==> (match
            spec_normalized(line_view(&l)) {
                Option::None => true,
                Option::Some(t) => match spec_select_quality(
                    dsource(pre).current_episode_streams(),
                    t,
                ) {
                    Result::Ok(f) => post.phase is AwaitPlayer && post.machine.state
                        == State::SelectPlayer && dsource(post).current_stream()
                        == Option::Some(f) && entry_msgs_ok(post, sources, a.msgs@),
                    Result::Err(msg) => post.phase is AwaitQuality && same_state(
                        dsource(pre),
                        dsource(post),
                    ) && retry_msgs_ok(post.phase, msg, a.msgs@),
                },
            }))
    )
    // the player choice awaits its probe
    &&& (
            pre.phase is AwaitPlayer ==> (ev matches Event::Line(l) ==> (match
            spec_normalized(line_view(&l)) {
                Option::None => true,
                Option::Some(t) => match player_resolution(t) {
                    Option::Some(p) => (post.phase matches Phase::AwaitProbe(pp) && pp == p)
                        && post.machine == pre.machine && entry_msgs_ok(
                        post,
                        sources,
                        a.msgs@,
                    ),
                    Option::None => post.phase is AwaitPlayer && post.machine == pre.machine && retry_msgs_ok(post.phase, spec_player_retry(t), a.msgs@),
                },
            }))
    )
    // the probe outcome
    &&& (
            pre.phase matches Phase::AwaitProbe(p) ==> (ev matches Event::Probed(ok) ==> (
            if ok {
                post.phase is AwaitLaunch && post.machine.state
                    == State::LaunchPlayer && post.machine.data.player == Option::Some(p)
                    && entry_msgs_ok(post, sources, a.msgs@)
            } else {
                &&& post.phase is AwaitPlayer
                &&& post.machine == pre.machine
                &&& a.msgs@.len() == 2
                &&& a.msgs@[0].channel is Error
                &&& a.msgs@[0].text@ == spec_player_doc(p)
                &&& a.msgs@[1].channel is Input
                &&& a.msgs@[1].text@ == spec_phase_prompt(post.phase)
            }))
    )
    // the launch outcome
    &&& (
            pre.phase is AwaitLaunch ==> (ev matches Event::Launched(res) ==> (match res {
                Result::Ok(_) => {
                    &&& post.phase is AwaitNextAction
                    &&& post.machine == pre.machine
                    &&& a.msgs@.len() == 3
                    &&& a.msgs@[0].channel is Info
                    &&& a.msgs@[0].text@ == "\nProcess finished!\n"@
                    &&& entry_msgs_ok(post, sources, a.msgs@.subrange(1, 3))
                },
                Result::Err(e) => {
                    &&& popped(pre, post)
                    &&& post.phase is AwaitPlayer
                    &&& a.msgs@.len() == 3
                    &&& a.msgs@[0].channel is Error
                    &&& a.msgs@[0].text@ == e@
                    &&& entry_msgs_ok(post, sources, a.msgs@.subrange(1, 3))
                },
            }))
    )
    // the post-launch menu rewinds
    &&& (
            pre.phase is AwaitNextAction ==> (ev matches Event::Line(l) ==> (match
            spec_normalized(line_view(&l)) {
                Option::None => true,
                Option::Some(t) => match next_action_resolution(t) {
                    Option::Some(target) => (match crate::state_machine::first_occurrence(
                        pre.machine.previous_states@,
                        target,
                    ) {
                        Option::Some(i) => post.machine.state == target && post.machine.previous_states@ == pre.machine.previous_states@.subrange(
                            0,
                            i,
                        ) && post.phase == spec_entry_phase(target) && entry_msgs_ok(
                            post,
                            sources,
                            a.msgs@,
                        ),
                        Option::None => post.phase is AwaitNextAction && post.machine
                            == pre.machine && retry_msgs_ok(
                            post.phase,
                            "No earlier stage `"@ + spec_state_name(target) + "`"@,
                            a.msgs@,
                        ),
                    }),
                    Option::None => post.phase is AwaitNextAction && post.machine
                        == pre.machine && retry_msgs_ok(
                        post.phase,
                        "Unknown next action `"@ + t + "`"@,
                        a.msgs@,
                    ),
                },
            }))
    )
}

/// The interactive dialog: the state machine, the position within the
/// current stage, and the language tally shown at the first stage.
pub struct Dialog {
    pub machine: StateMachine,
    pub phase: Phase,
    pub languages: Vec<(Language, u64)>,
}

/// The source the session holds.
pub open spec fn dsource(d: Dialog) -> Anilibria
    recommends
        d.machine.data.source is Some,
{
    d.machine.data.source->0
}

/// Whether the second dialog is the first with one stage popped: the top of
/// the history became current, entered fresh, with the session untouched.
pub open spec fn popped(pre: Dialog, post: Dialog) -> bool {
    &&& post.machine.previous_states@ == pre.machine.previous_states@.drop_last()
    &&& post.machine.state == pre.machine.previous_states@.last()
    &&& post.machine.data == pre.machine.data
    &&& post.phase == spec_entry_phase(pre.machine.previous_states@.last())
}

/// Whether an action's operation is the one the dialog's phase awaits.
pub open spec fn op_fits(d: Dialog, op: Op) -> bool {
    match d.phase {
        Phase::AwaitSearch(q) => op matches Op::FetchSearch(qq) && qq@ == q@,
        Phase::AwaitProbe(p) => op matches Op::Probe(pp) && pp == p,
        Phase::AwaitLaunch => op matches Op::Launch(p, u) && d.machine.data.player
            == Option::Some(p) && (d.machine.data.source matches Some(s) && u@ == spec_stream_url(
            s.current_stream()->0,
        )),
        Phase::Done => op is Quit,
        _ => op is Read,
    }
}

/// The opening state of a dialog: the machine at the first stage with an
/// empty history and an empty session, and the language tally of the given
/// sources.
pub open spec fn dialog_start_ok(sources: Seq<Anilibria>, d: Dialog) -> bool {
    &&& d.phase is AwaitLanguage
    &&& d.machine.state == State::SelectLanguage
    &&& d.machine.previous_states@ == Seq::<State>::empty()
    &&& d.machine.data.language == Language::All
    &&& d.machine.data.source is None
    &&& d.machine.data.player is None
    &&& d.languages@ == spec_language_tally(sources)
}

/// A whole run as a trace: the opening dialog with its opening action, then
/// one step relation per consumed event; the run stops early only when the
/// dialog is over or the next event is not of the kind the dialog awaits.
pub open spec fn run_trace_ok(
    sources: Seq<Anilibria>,
    events: Seq<Event>,
    ds: Seq<Dialog>,
    actions: Seq<Action>,
) -> bool {
    &&& ds.len() == actions.len()
    &&& 1 <= ds.len() <= events.len() + 1
    &&& dialog_start_ok(sources, ds[0])
    &&& ds[0].inv()
    &&& op_fits(ds[0], actions[0].op)
    &&& entry_msgs_ok(ds[0], sources, actions[0].msgs@)
    &&& (forall|i: int|
        1 <= i < ds.len() ==> event_fits((#[trigger] ds[i - 1]).phase, events[i - 1]) && step_rel(
            ds[i - 1],
            sources,
            events[i - 1],
            ds[i],
            actions[i],
        ))
    &&& (ds.len() <= events.len() ==> (ds.last().phase is Done || !event_fits(
        ds.last().phase,
        events[ds.len() - 1],
    )))
}

impl Dialog {
    /// The dialog's internal consistency: the machine's stage matches the
    /// phase, the session holds what the stage needs, and the history is
    /// exactly the chain of stages below the current one.
    pub open spec fn inv(&self) -> bool {
        let stack = self.machine.previous_states@;
        &&& self.machine.data.wf()
        &&& (forall|k: int|
            0 <= k < self.languages@.len() ==> !((#[trigger] self.languages@[k]).0 is All))
        &&& (!(self.phase is Done) ==> {
            &&& self.machine.state == phase_state(self.phase)
            &&& state_req(self.machine.data, self.machine.state)
            &&& crate::state::rank(self.machine.state) == stack.len()
            &&& (forall|k: int|
                0 <= k < stack.len() ==> crate::state::rank(#[trigger] stack[k]) == k)
            &&& (forall|k: int|
                0 <= k < stack.len() ==> state_req(self.machine.data, #[trigger] stack[k]))
        })
    }

    /// Opens a dialog over the given sources: the machine at the first
    /// stage, and the language prompt as the first action.
    pub fn start(sources: &Vec<Anilibria>) -> (r: (Dialog, Action))
        ensures
            r.0.inv(),
            dialog_start_ok(sources@, r.0),
            op_fits(r.0, r.1.op),
            entry_msgs_ok(r.0, sources@, r.1.msgs@),
    {
        let languages = tally_languages(sources);
        let d = Dialog { machine: StateMachine::default(), phase: Phase::AwaitLanguage, languages };
        let a = d.entry_action(sources);
        (d, a)
    }

    /// The messages and operation a freshly entered phase calls for.
    fn entry_action(&self, sources: &Vec<Anilibria>) -> (a: Action)
        requires
            self.inv(),
        ensures
            op_fits(*self, a.op),
            entry_msgs_ok(*self, sources@, a.msgs@),
    {
        let mut msgs: Vec<Msg> = Vec::new();
        match &self.phase {
            Phase::AwaitLanguage => {
                msgs.push(
                    Msg { channel: Channel::VariantHeadline, text: "Available languages".to_owned() },
                );
                msgs.push(
                    Msg {
                        channel: Channel::Info,
                        text: " (enter empty input to back previous state):\n".to_owned(),
                    },
                );
                let n = self.languages.len();
                let mut i: usize = 0;
                while i < n
                    invariant
                        i <= n,
                        n == self.languages.len(),
                        forall|k: int|
                            0 <= k < self.languages@.len() ==> !((#[trigger] self.languages@[k]).0
                                is All),
                        msgs@.len() == i + 2,
                        msgs@[0].channel is VariantHeadline,
                        msgs@[0].text@ == "Available languages"@,
                        msgs@[1].channel is Info,
                        msgs@[1].text@ == " (enter empty input to back previous state):\n"@,
                        forall|k: int|
                            0 <= k < i ==> (#[trigger] msgs@[k + 2]).channel is Variant && msgs@[k
                                + 2].text@ == spec_language_line(k, self.languages@[k]),
                    decreases n - i,
                {
                    let mut line = "\t".to_owned();
                    let num = crate::text::dec_of_u64((i as u64) + 1);
                    line.append(num.as_str());
                    line.append(". ");
                    let name = self.languages[i].0.name();
                    line.append(name.as_str());
                    line.append(" (");
                    let count = crate::text::dec_of_u64(self.languages[i].1);
                    line.append(count.as_str());
                    line.append(" sources)\n");
                    proof {
                        assert(line@ == spec_language_line(i as int, self.languages@[i as int]));
                    }
                    msgs.push(Msg { channel: Channel::Variant, text: line });
                    i += 1;
                }
                msgs.push(
                    Msg { channel: Channel::Input, text: "\nSelect a language: ".to_owned() },
                );
                Action { msgs, op: Op::Read }
            },
            Phase::AwaitSource => {
                msgs.push(
                    Msg {
                        channel: Channel::VariantHeadline,
                        text: "Available sources:\n".to_owned(),
                    },
                );
                let filtered = filter_sources(sources, &self.machine.data.language);
                let n = filtered.len();
                let mut i: usize = 0;
                while i < n
                    invariant
                        i <= n,
                        n == filtered.len(),
                        forall|k: int| 0 <= k < filtered@.len() ==> filtered@[k] < sources@.len(),
                        msgs@.len() == i + 1,
                        msgs@[0].channel is VariantHeadline,
                        msgs@[0].text@ == "Available sources:\n"@,
                        forall|k: int|
                            0 <= k < i ==> (#[trigger] msgs@[k + 1]).channel is Variant && msgs@[k
                                + 1].text@ == spec_source_line(k),
                    decreases n - i,
                {
                    let mut line = "\t".to_owned();
                    let num = crate::text::dec_of_u64((i as u64) + 1);
                    line.append(num.as_str());
                    line.append(". ");
                    let name = sources[filtered[i]].display_name();
                    line.append(name.as_str());
                    line.append("\n");
                    proof {
                        assert(line@ == spec_source_line(i as int));
                    }
                    msgs.push(Msg { channel: Channel::Variant, text: line });
                    i += 1;
                }
                msgs.push(Msg { channel: Channel::Input, text: "\nSelect a source: ".to_owned() });
                Action { msgs, op: Op::Read }
            },
            Phase::AwaitAnimeName => {
                msgs.push(Msg { channel: Channel::Input, text: "Enter anime name: ".to_owned() });
                Action { msgs, op: Op::Read }
            },
            Phase::AwaitSearch(q) => Action { msgs, op: Op::FetchSearch(q.clone()) },
            Phase::AwaitAnimeChoice => {
                msgs.push(Msg { channel: Channel::Input, text: "\nSelect anime: ".to_owned() });
                Action { msgs, op: Op::Read }
            },
            Phase::AwaitEpisode => {
                let info = match &self.machine.data.source {
                    Option::Some(s) => match s.episodes_info() {
                        Result::Ok(info) => info,
                        Result::Err(_) => {
                            proof {
                                assert(false);
                            }
                            String::new()
                        },
                    },
                    Option::None => {
                        proof {
                            assert(false);
                        }
                        String::new()
                    },
                };
                let mut h = "Episodes: ".to_owned();
                h.append(info.as_str());
                msgs.push(Msg { channel: Channel::VariantHeadline, text: h });
                msgs.push(
                    Msg { channel: Channel::Input, text: "\nSelect an episode: ".to_owned() },
                );
                Action { msgs, op: Op::Read }
            },
            Phase::AwaitQuality => {
                let info = match &self.machine.data.source {
                    Option::Some(s) => match s.qualities_info() {
                        Result::Ok(info) => info,
                        Result::Err(_) => {
                            proof {
                                assert(false);
                            }
                            String::new()
                        },
                    },
                    Option::None => {
                        proof {
                            assert(false);
                        }
                        String::new()
                    },
                };
                let mut h = "Qualities:\n".to_owned();
                h.append(info.as_str());
                msgs.push(Msg { channel: Channel::VariantHeadline, text: h });
                msgs.push(Msg { channel: Channel::Input, text: "\nSelect a quality: ".to_owned() });
                Action { msgs, op: Op::Read }
            },
            Phase::AwaitPlayer => {
                let list = players();
                let mut h = "Players:\n".to_owned();
                let n = list.len();
                let mut i: usize = 0;
                while i < n
                    invariant
                        i <= n,
                        n == list.len(),
                        list@ == seq![Player::Mpv],
                        h@ == if i == 0 {
                            "Players:\n"@
                        } else {
                            "Players:\n"@ + "\t"@ + "MPV"@ + "\n"@
                        },
                    decreases n - i,
                {
                    h.append("\t");
                    let name = list[i].name();
                    h.append(name.as_str());
                    h.append("\n");
                    i += 1;
                }
                msgs.push(Msg { channel: Channel::VariantHeadline, text: h });
                msgs.push(Msg { channel: Channel::Input, text: "\nSelect a player: ".to_owned() });
                Action { msgs, op: Op::Read }
            },
            Phase::AwaitProbe(p) => Action { msgs, op: Op::Probe(*p) },
            Phase::AwaitLaunch => {
                msgs.push(
                    Msg {
                        channel: Channel::Info,
                        text: "\nLaunch the process! Wait opening...\n".to_owned(),
                    },
                );
                let player = self.machine.data.player.unwrap();
                let (player, url) = match &self.machine.data.source {
                    Option::Some(s) => launch_player(s, player),
                    Option::None => {
                        proof {
                            assert(false);
                        }
                        (player, String::new())
                    },
                };
                Action { msgs, op: Op::Launch(player, url) }
            },
            Phase::AwaitNextAction => {
                msgs.push(
                    Msg {
                        channel: Channel::VariantHeadline,
                        text: "Where to go next:\n\tanime | episode | quality\n".to_owned(),
                    },
                );
                msgs.push(
                    Msg { channel: Channel::Input, text: "\nSelect the next action: ".to_owned() },
                );
                Action { msgs, op: Op::Read }
            },
            Phase::Done => {
                msgs.push(Msg { channel: Channel::Info, text: finish() });
                Action { msgs, op: Op::Quit }
            },
        }
    }

    /// A warning and the phase's prompt again, for input that did not
    /// resolve.
    fn retry_action(&self, warning: String) -> (a: Action)
        requires
            !(self.phase is AwaitSearch),
            !(self.phase is AwaitProbe),
            !(self.phase is AwaitLaunch),
            !(self.phase is Done),
        ensures
            op_fits(*self, a.op),
            retry_msgs_ok(self.phase, warning@, a.msgs@),
    {
        let mut msgs: Vec<Msg> = Vec::new();
        msgs.push(Msg { channel: Channel::Warning, text: warning });
        let prompt: &str = match &self.phase {
            Phase::AwaitLanguage => "\nSelect a language: ",
            Phase::AwaitSource => "\nSelect a source: ",
            Phase::AwaitAnimeName => "Enter anime name: ",
            Phase::AwaitAnimeChoice => "\nSelect anime: ",
            Phase::AwaitEpisode => "\nSelect an episode: ",
            Phase::AwaitQuality => "\nSelect a quality: ",
            Phase::AwaitPlayer => "\nSelect a player: ",
            Phase::AwaitNextAction => "\nSelect the next action: ",
            _ => "",
        };
        msgs.push(Msg { channel: Channel::Input, text: prompt.to_owned() });
        Action { msgs, op: Op::Read }
    }

    /// Pops the machine one stage and enters that stage.
    fn go_back(&mut self, sources: &Vec<Anilibria>) -> (a: Action)
        requires
            old(self).inv(),
            !(old(self).phase is Done),
            old(self).machine.state != State::SelectLanguage,
        ensures
            final(self).inv(),
            op_fits(*final(self), a.op),
            final(self).machine.previous_states@ == old(self).machine.previous_states@.drop_last(),
            final(self).machine.state == old(self).machine.previous_states@.last(),
            final(self).machine.data == old(self).machine.data,
            final(self).phase == spec_entry_phase(old(self).machine.previous_states@.last()),
            final(self).languages == old(self).languages,
            entry_msgs_ok(*final(self), sources@, a.msgs@),
    {
        proof {
            assert(old(self).machine.previous_states@.len() > 0);
        }
        self.machine.set_previous_state();
        let s = self.machine.current_state();
        self.phase = entry_phase(s);
        self.entry_action(sources)
    }

    /// Feeds one outside event to the dialog and answers with the next
    /// thing to do. Empty input at any prompt goes back one stage — or ends
    /// the dialog at the first one; a resolved input advances; an
    /// unresolved one is reported and asked again. Everything promised here
    /// is gathered into [`step_rel`], which `run` chains over whole traces.
    #[verifier::rlimit(100)]
    pub fn step(&mut self, sources: &Vec<Anilibria>, ev: &Event) -> (a: Action)
        requires
            old(self).inv(),
            event_fits(old(self).phase, *ev),
        ensures
            final(self).inv(),
            op_fits(*final(self), a.op),
            final(self).languages == old(self).languages,
            // the language stage: empty input ends the dialog; an alias or a
            // clamped index advances; anything else is asked again
            old(self).phase is AwaitLanguage ==> (*ev matches Event::Line(l) ==> (match
            spec_normalized(line_view(&l)) {
                Option::None => final(self).phase is Done && entry_msgs_ok(
                    *final(self),
                    sources@,
                    a.msgs@,
                ),
                Option::Some(t) => match language_resolution(old(self).languages@, t) {
                    Option::Some(lang) => final(self).phase is AwaitSource
                        && final(self).machine.state == State::SelectSource
                        && final(self).machine.data.language == lang && entry_msgs_ok(
                        *final(self),
                        sources@,
                        a.msgs@,
                    ),
                    Option::None => final(self).phase is AwaitLanguage
                        && final(self).machine == old(self).machine && retry_msgs_ok(
                        final(self).phase,
                        spec_language_retry(t),
                        a.msgs@,
                    ),
                },
            })),
            // empty input at any prompt below the first stage pops one stage
            // and enters it afresh
            !(old(self).phase is AwaitLanguage) ==> (*ev matches Event::Line(l) ==> (
            spec_normalized(line_view(&l)) is None ==> popped(*old(self), *final(self))
                && entry_msgs_ok(*final(self), sources@, a.msgs@))),
            // the source stage: a resolved choice installs a fresh source
            old(self).phase is AwaitSource ==> (*ev matches Event::Line(l) ==> (match
            spec_normalized(line_view(&l)) {
                Option::None => true,
                Option::Some(t) => {
                    let listed = if source_included(old(self).machine.data.language) {
                        sources@.len() as int
                    } else {
                        0
                    };
                    if source_resolves(listed, t) {
                        &&& final(self).phase is AwaitAnimeName
                        &&& final(self).machine.state == State::SelectAnime
                        &&& final(self).machine.data.source is Some
                        &&& dsource(*final(self)).titles().len() == 0
                        &&& dsource(*final(self)).current_anime_index() is None
                        &&& dsource(*final(self)).current_episode_num() is None
                        &&& dsource(*final(self)).current_stream() is None
                        &&& entry_msgs_ok(*final(self), sources@, a.msgs@)
                    } else {
                        final(self).phase is AwaitSource && final(self).machine == old(
                            self,
                        ).machine && retry_msgs_ok(
                            final(self).phase,
                            spec_source_retry(t),
                            a.msgs@,
                        )
                    }
                },
            })),
            // a typed anime name becomes the search query
            old(self).phase is AwaitAnimeName ==> (*ev matches Event::Line(l) ==> (match
            spec_normalized(line_view(&l)) {
                Option::None => true,
                Option::Some(t) => (final(self).phase matches Phase::AwaitSearch(q) && q@ == t)
                    && final(self).machine == old(self).machine && entry_msgs_ok(
                    *final(self),
                    sources@,
                    a.msgs@,
                ),
            })),
            // the search response: a nonempty result list offers the choice;
            // transport errors, malformed bodies and empty results report and
            // ask for a name again, leaving the source as it was
            old(self).phase matches Phase::AwaitSearch(q) ==> (*ev matches Event::Fetched(res)
                ==> (match res {
                Result::Ok(body) => match json_of(body@) {
                    Option::Some(tree) => match spec_response_titles(tree) {
                        Option::Some(list) => if list.len() > 0 {
                            &&& final(self).phase is AwaitAnimeChoice
                            &&& final(self).machine.state == State::SelectAnime
                            &&& dsource(*final(self)).titles() == list
                            &&& dsource(*final(self)).current_anime_index() is None
                            &&& a.msgs@.len() == 2
                            &&& a.msgs@[0].channel is VariantHeadline
                            &&& a.msgs@[0].text@ == "Anime list:\n"@ + crate::anilibria::spec_titles_listing(list)
                            &&& a.msgs@[1].channel is Input
                            &&& a.msgs@[1].text@ == spec_phase_prompt(final(self).phase)
                        } else {
                            &&& final(self).phase is AwaitAnimeName
                            &&& same_state(dsource(*old(self)), dsource(*final(self)))
                            &&& search_fail_msgs_ok(a.msgs@)
                            &&& a.msgs@[0].text@ == crate::anilibria::spec_empty_search_msg(q@)
                                + "\n"@
                        },
                        Option::None => {
                            &&& final(self).phase is AwaitAnimeName
                            &&& same_state(dsource(*old(self)), dsource(*final(self)))
                            &&& search_fail_msgs_ok(a.msgs@)
                            &&& a.msgs@[0].text@
                                == "Parse error: unexpected structure of the anime list"@ + "\n"@
                        },
                    },
                    Option::None => final(self).phase is AwaitAnimeName && same_state(
                        dsource(*old(self)),
                        dsource(*final(self)),
                    ) && search_fail_msgs_ok(a.msgs@),
                },
                Result::Err(e) => {
                    &&& final(self).phase is AwaitAnimeName
                    &&& same_state(dsource(*old(self)), dsource(*final(self)))
                    &&& search_fail_msgs_ok(a.msgs@)
                    &&& a.msgs@[0].text@ == "Api error: "@ + e@ + "\n"@
                },
            })),
            // the anime choice
            old(self).phase is AwaitAnimeChoice ==> (*ev matches Event::Line(l) ==> (match
            spec_normalized(line_view(&l)) {
                Option::None => true,
                Option::Some(t) => match spec_select_anime(dsource(*old(self)).titles(), t) {
                    Result::Ok(i) => final(self).phase is AwaitEpisode && final(self).machine.state
                        == State::SelectEpisode && dsource(*final(self)).current_anime_index()
                        == Option::Some(i) && entry_msgs_ok(*final(self), sources@, a.msgs@),
                    Result::Err(msg) => final(self).phase is AwaitAnimeChoice && same_state(
                        dsource(*old(self)),
                        dsource(*final(self)),
                    ) && retry_msgs_ok(final(self).phase, msg, a.msgs@),
                },
            })),
            // the episode choice
            old(self).phase is AwaitEpisode ==> (*ev matches Event::Line(l) ==> (match
            spec_normalized(line_view(&l)) {
                Option::None => true,
                Option::Some(t) => match spec_select_episode(
                    dsource(*old(self)).current_title(),
                    t,
                ) {
                    Result::Ok(e) => final(self).phase is AwaitQuality && final(self).machine.state
                        == State::SelectQuality && dsource(*final(self)).current_episode_num()
                        == Option::Some(e) && entry_msgs_ok(*final(self), sources@, a.msgs@),
                    Result::Err(msg) => final(self).phase is AwaitEpisode && same_state(
                        dsource(*old(self)),
                        dsource(*final(self)),
                    ) && retry_msgs_ok(final(self).phase, msg, a.msgs@),
                },
            })),
            // the quality choice
            old(self).phase is AwaitQuality ==> (*ev matches Event::Line(l) ==> (match
            spec_normalized(line_view(&l)) {
                Option::None => true,
                Option::Some(t) => match spec_select_quality(
                    dsource(*old(self)).current_episode_streams(),
                    t,
                ) {
                    Result::Ok(f) => final(self).phase is AwaitPlayer && final(self).machine.state
                        == State::SelectPlayer && dsource(*final(self)).current_stream()
                        == Option::Some(f) && entry_msgs_ok(*final(self), sources@, a.msgs@),
                    Result::Err(msg) => final(self).phase is AwaitQuality && same_state(
                        dsource(*old(self)),
                        dsource(*final(self)),
                    ) && retry_msgs_ok(final(self).phase, msg, a.msgs@),
                },
            })),
            // the player choice awaits its probe
            old(self).phase is AwaitPlayer ==> (*ev matches Event::Line(l) ==> (match
            spec_normalized(line_view(&l)) {
                Option::None => true,
                Option::Some(t) => match player_resolution(t) {
                    Option::Some(p) => (final(self).phase matches Phase::AwaitProbe(pp) && pp == p)
                        && final(self).machine == old(self).machine && entry_msgs_ok(
                        *final(self),
                        sources@,
                        a.msgs@,
                    ),
                    Option::None => final(self).phase is AwaitPlayer && final(self).machine == old(
                        self,
                    ).machine && retry_msgs_ok(final(self).phase, spec_player_retry(t), a.msgs@),
                },
            })),
            // the probe outcome: an installed player advances; otherwise the
            // install hint is shown and the player prompt repeats
            old(self).phase matches Phase::AwaitProbe(p) ==> (*ev matches Event::Probed(ok) ==> (
            if ok {
                final(self).phase is AwaitLaunch && final(self).machine.state
                    == State::LaunchPlayer && final(self).machine.data.player == Option::Some(p)
                    && entry_msgs_ok(*final(self), sources@, a.msgs@)
            } else {
                &&& final(self).phase is AwaitPlayer
                &&& final(self).machine == old(self).machine
                &&& a.msgs@.len() == 2
                &&& a.msgs@[0].channel is Error
                &&& a.msgs@[0].text@ == spec_player_doc(p)
                &&& a.msgs@[1].channel is Input
                &&& a.msgs@[1].text@ == spec_phase_prompt(final(self).phase)
            })),
            // the launch outcome
            old(self).phase is AwaitLaunch ==> (*ev matches Event::Launched(res) ==> (match res {
                Result::Ok(_) => {
                    &&& final(self).phase is AwaitNextAction
                    &&& final(self).machine == old(self).machine
                    &&& a.msgs@.len() == 3
                    &&& a.msgs@[0].channel is Info
                    &&& a.msgs@[0].text@ == "\nProcess finished!\n"@
                    &&& entry_msgs_ok(*final(self), sources@, a.msgs@.subrange(1, 3))
                },
                Result::Err(e) => {
                    &&& popped(*old(self), *final(self))
                    &&& final(self).phase is AwaitPlayer
                    &&& a.msgs@.len() == 3
                    &&& a.msgs@[0].channel is Error
                    &&& a.msgs@[0].text@ == e@
                    &&& entry_msgs_ok(*final(self), sources@, a.msgs@.subrange(1, 3))
                },
            })),
            // the post-launch menu rewinds
            old(self).phase is AwaitNextAction ==> (*ev matches Event::Line(l) ==> (match
            spec_normalized(line_view(&l)) {
                Option::None => true,
                Option::Some(t) => match next_action_resolution(t) {
                    Option::Some(target) => (match crate::state_machine::first_occurrence(
                        old(self).machine.previous_states@,
                        target,
                    ) {
                        Option::Some(i) => final(self).machine.state == target && final(self).machine.previous_states@ == old(self).machine.previous_states@.subrange(
                            0,
                            i,
                        ) && final(self).phase == spec_entry_phase(target) && entry_msgs_ok(
                            *final(self),
                            sources@,
                            a.msgs@,
                        ),
                        Option::None => final(self).phase is AwaitNextAction && final(self).machine
                            == old(self).machine && retry_msgs_ok(
                            final(self).phase,
                            "No earlier stage `"@ + spec_state_name(target) + "`"@,
                            a.msgs@,
                        ),
                    }),
                    Option::None => final(self).phase is AwaitNextAction && final(self).machine
                        == old(self).machine && retry_msgs_ok(
                        final(self).phase,
                        "Unknown next action `"@ + t + "`"@,
                        a.msgs@,
                    ),
                },
            })),
    {
        // take the phase out to own its payloads; every arm installs the
        // next phase before building its action
        let mut ph = Phase::Done;
        core::mem::swap(&mut ph, &mut self.phase);
        match ph {
            Phase::AwaitLanguage => {
                let line = match ev {
                    Event::Line(l) => l,
                    _ => {
                        proof {
                            assert(false);
                        }
                        &Option::None
                    },
                };
                match select_language(&self.languages, line) {
                    StageOutcome::Back => {
                        self.phase = Phase::Done;
                        self.entry_action(sources)
                    },
                    StageOutcome::Chosen(lang) => {
                        self.machine.data.set_language(lang);
                        self.machine.set_state(State::SelectSource);
                        self.phase = Phase::AwaitSource;
                        self.entry_action(sources)
                    },
                    StageOutcome::Retry(m) => {
                        self.phase = Phase::AwaitLanguage;
                        self.retry_action(m)
                    },
                }
            },
            Phase::AwaitSource => {
                let line = match ev {
                    Event::Line(l) => l,
                    _ => {
                        proof {
                            assert(false);
                        }
                        &Option::None
                    },
                };
                let filtered = filter_sources(sources, &self.machine.data.language);
                match select_source(sources, &filtered, line) {
                    StageOutcome::Back => {
                        self.phase = Phase::AwaitSource;
                        self.go_back(sources)
                    },
                    StageOutcome::Chosen(_) => {
                        self.machine.data.set_source(Anilibria::new());
                        self.machine.set_state(State::SelectAnime);
                        self.phase = Phase::AwaitAnimeName;
                        self.entry_action(sources)
                    },
                    StageOutcome::Retry(m) => {
                        self.phase = Phase::AwaitSource;
                        self.retry_action(m)
                    },
                }
            },
            Phase::AwaitAnimeName => {
                let line = match ev {
                    Event::Line(l) => l,
                    _ => {
                        proof {
                            assert(false);
                        }
                        &Option::None
                    },
                };
                match normalized_line(line) {
                    Option::None => {
                        self.phase = Phase::AwaitAnimeName;
                        self.go_back(sources)
                    },
                    Option::Some(q) => {
                        self.phase = Phase::AwaitSearch(q);
                        self.entry_action(sources)
                    },
                }
            },
            Phase::AwaitSearch(q) => {
                let res = match ev {
                    Event::Fetched(res) => res,
                    _ => {
                        proof {
                            assert(false);
                        }
                        return Action { msgs: Vec::new(), op: Op::Quit };
                    },
                };
                let owned: Result<String, String> = match res {
                    Result::Ok(b) => Result::Ok(b.clone()),
                    Result::Err(e) => Result::Err(e.clone()),
                };
                let sr = match &mut self.machine.data.source {
                    Option::Some(s) => s.search_anime_list(q.as_str(), owned),
                    Option::None => {
                        proof {
                            assert(false);
                        }
                        return Action { msgs: Vec::new(), op: Op::Quit };
                    },
                };
                match sr {
                    Result::Ok(listing) => {
                        self.phase = Phase::AwaitAnimeChoice;
                        let mut msgs: Vec<Msg> = Vec::new();
                        let mut h = "Anime list:\n".to_owned();
                        h.append(listing.as_str());
                        msgs.push(Msg { channel: Channel::VariantHeadline, text: h });
                        msgs.push(
                            Msg { channel: Channel::Input, text: "\nSelect anime: ".to_owned() },
                        );
                        Action { msgs, op: Op::Read }
                    },
                    Result::Err(e) => {
                        self.phase = Phase::AwaitAnimeName;
                        let mut msgs: Vec<Msg> = Vec::new();
                        let mut t = e.message();
                        t.append("\n");
                        msgs.push(Msg { channel: Channel::Error, text: t });
                        msgs.push(
                            Msg { channel: Channel::Input, text: "Enter anime name: ".to_owned() },
                        );
                        Action { msgs, op: Op::Read }
                    },
                }
            },
            Phase::AwaitAnimeChoice => {
                let line = match ev {
                    Event::Line(l) => l,
                    _ => {
                        proof {
                            assert(false);
                        }
                        &Option::None
                    },
                };
                let outcome = match &mut self.machine.data.source {
                    Option::Some(s) => select_anime(s, line),
                    Option::None => {
                        proof {
                            assert(false);
                        }
                        return Action { msgs: Vec::new(), op: Op::Quit };
                    },
                };
                match outcome {
                    StageOutcome::Back => {
                        self.phase = Phase::AwaitAnimeChoice;
                        self.go_back(sources)
                    },
                    StageOutcome::Chosen(_) => {
                        self.machine.set_state(State::SelectEpisode);
                        self.phase = Phase::AwaitEpisode;
                        self.entry_action(sources)
                    },
                    StageOutcome::Retry(m) => {
                        self.phase = Phase::AwaitAnimeChoice;
                        self.retry_action(m)
                    },
                }
            },
            Phase::AwaitEpisode => {
                let line = match ev {
                    Event::Line(l) => l,
                    _ => {
                        proof {
                            assert(false);
                        }
                        &Option::None
                    },
                };
                let outcome = match &mut self.machine.data.source {
                    Option::Some(s) => select_episode(s, line),
                    Option::None => {
                        proof {
                            assert(false);
                        }
                        return Action { msgs: Vec::new(), op: Op::Quit };
                    },
                };
                match outcome {
                    StageOutcome::Back => {
                        self.phase = Phase::AwaitEpisode;
                        self.go_back(sources)
                    },
                    StageOutcome::Chosen(_) => {
                        self.machine.set_state(State::SelectQuality);
                        self.phase = Phase::AwaitQuality;
                        self.entry_action(sources)
                    },
                    StageOutcome::Retry(m) => {
                        self.phase = Phase::AwaitEpisode;
                        self.retry_action(m)
                    },
                }
            },
            Phase::AwaitQuality => {
                let line = match ev {
                    Event::Line(l) => l,
                    _ => {
                        proof {
                            assert(false);
                        }
                        &Option::None
                    },
                };
                let outcome = match &mut self.machine.data.source {
                    Option::Some(s) => select_quality(s, line),
                    Option::None => {
                        proof {
                            assert(false);
                        }
                        return Action { msgs: Vec::new(), op: Op::Quit };
                    },
                };
                match outcome {
                    StageOutcome::Back => {
                        self.phase = Phase::AwaitQuality;
                        self.go_back(sources)
                    },
                    StageOutcome::Chosen(_) => {
                        self.machine.set_state(State::SelectPlayer);
                        self.phase = Phase::AwaitPlayer;
                        self.entry_action(sources)
                    },
                    StageOutcome::Retry(m) => {
                        self.phase = Phase::AwaitQuality;
                        self.retry_action(m)
                    },
                }
            },
            Phase::AwaitPlayer => {
                let line = match ev {
                    Event::Line(l) => l,
                    _ => {
                        proof {
                            assert(false);
                        }
                        &Option::None
                    },
                };
                match select_player(line) {
                    StageOutcome::Back => {
                        self.phase = Phase::AwaitPlayer;
                        self.go_back(sources)
                    },
                    StageOutcome::Chosen(p) => {
                        self.phase = Phase::AwaitProbe(p);
                        self.entry_action(sources)
                    },
                    StageOutcome::Retry(m) => {
                        self.phase = Phase::AwaitPlayer;
                        self.retry_action(m)
                    },
                }
            },
            Phase::AwaitProbe(p) => {
                let ok = match ev {
                    Event::Probed(ok) => *ok,
                    _ => {
                        proof {
                            assert(false);
                        }
                        false
                    },
                };
                if ok {
                    self.machine.data.set_player(p);
                    self.machine.set_state(State::LaunchPlayer);
                    self.phase = Phase::AwaitLaunch;
                    self.entry_action(sources)
                } else {
                    self.phase = Phase::AwaitPlayer;
                    let mut msgs: Vec<Msg> = Vec::new();
                    msgs.push(Msg { channel: Channel::Error, text: p.doc().to_owned() });
                    msgs.push(
                        Msg { channel: Channel::Input, text: "\nSelect a player: ".to_owned() },
                    );
                    Action { msgs, op: Op::Read }
                }
            },
            Phase::AwaitLaunch => {
                let res = match ev {
                    Event::Launched(res) => res,
                    _ => {
                        proof {
                            assert(false);
                        }
                        return Action { msgs: Vec::new(), op: Op::Quit };
                    },
                };
                match res {
                    Result::Ok(_) => {
                        self.phase = Phase::AwaitNextAction;
                        let mut ea = self.entry_action(sources);
                        let mut msgs: Vec<Msg> = Vec::new();
                        msgs.push(
                            Msg {
                                channel: Channel::Info,
                                text: "\nProcess finished!\n".to_owned(),
                            },
                        );
                        let ghost em = ea.msgs@;
                        msgs.append(&mut ea.msgs);
                        proof {
                            assert(msgs@.subrange(1, msgs@.len() as int) =~= em);
                        }
                        Action { msgs, op: ea.op }
                    },
                    Result::Err(e) => {
                        self.phase = Phase::AwaitLaunch;
                        let mut ea = self.go_back(sources);
                        let mut msgs: Vec<Msg> = Vec::new();
                        msgs.push(Msg { channel: Channel::Error, text: e.clone() });
                        let ghost em = ea.msgs@;
                        msgs.append(&mut ea.msgs);
                        proof {
                            assert(msgs@.subrange(1, msgs@.len() as int) =~= em);
                        }
                        Action { msgs, op: ea.op }
                    },
                }
            },
            Phase::AwaitNextAction => {
                let line = match ev {
                    Event::Line(l) => l,
                    _ => {
                        proof {
                            assert(false);
                        }
                        &Option::None
                    },
                };
                match select_next_action(line) {
                    StageOutcome::Back => {
                        self.phase = Phase::AwaitNextAction;
                        self.go_back(sources)
                    },
                    StageOutcome::Chosen(target) => {
                        proof {
                            crate::state_machine::lemma_rewind_semantics(
                                self.machine.previous_states@,
                                target,
                            );
                        }
                        self.machine.set_previous_state_and_truncate_next(target);
                        if self.machine.current_state() == target {
                            self.phase = entry_phase(target);
                            self.entry_action(sources)
                        } else {
                            self.phase = Phase::AwaitNextAction;
                            let mut m = "No earlier stage `".to_owned();
                            m.append(target.name());
                            m.append("`");
                            self.retry_action(m)
                        }
                    },
                    StageOutcome::Retry(m) => {
                        self.phase = Phase::AwaitNextAction;
                        self.retry_action(m)
                    },
                }
            },
            Phase::Done => {
                proof {
                    assert(false);
                }
                Action { msgs: Vec::new(), op: Op::Quit }
            },
        }
    }
}

fn fits(ph: &Phase, ev: &Event) -> (r: bool)
    ensures
        r == event_fits(*ph, *ev),
{
    match ph {
        Phase::AwaitSearch(_) => matches!(ev, Event::Fetched(_)),
        Phase::AwaitProbe(_) => matches!(ev, Event::Probed(_)),
        Phase::AwaitLaunch => matches!(ev, Event::Launched(_)),
        Phase::Done => false,
        _ => matches!(ev, Event::Line(_)),
    }
}

/// Runs a whole dialog over a pre-read list of events: the opening action,
/// then one action per consumed event. It stops early only when the dialog
/// is over or the next event is not the kind the dialog awaits. A runner on
/// a live terminal feeds [`Dialog::step`] one event at a time instead.
pub fn run(sources: &Vec<Anilibria>, events: &Vec<Event>) -> (r: (Dialog, Vec<Action>))
    ensures
        r.0.inv(),
        1 <= r.1@.len() <= events@.len() + 1,
        op_fits(r.0, r.1@.last().op),
        exists|ds: Seq<Dialog>|
            #[trigger] run_trace_ok(sources@, events@, ds, r.1@) && ds.last() == r.0,
{
    let (d0, a0) = Dialog::start(sources);
    let mut d = d0;
    let mut actions: Vec<Action> = Vec::new();
    actions.push(a0);
    let ghost mut trace: Seq<Dialog> = seq![d];
    let n = events.len();
    let mut i: usize = 0;
    loop
        invariant
            d.inv(),
            i <= n,
            n == events.len(),
            actions@.len() == i + 1,
            trace.len() == i + 1,
            trace.last() == d,
            dialog_start_ok(sources@, trace[0]),
            trace[0].inv(),
            op_fits(trace[0], actions@[0].op),
            entry_msgs_ok(trace[0], sources@, actions@[0].msgs@),
            op_fits(d, actions@.last().op),
            forall|k: int|
                1 <= k < trace.len() ==> event_fits((#[trigger] trace[k - 1]).phase, events@[k - 1])
                    && step_rel(trace[k - 1], sources@, events@[k - 1], trace[k], actions@[k]),
        decreases n - i,
    {
        if matches!(&d.phase, Phase::Done) {
            proof {
                assert(run_trace_ok(sources@, events@, trace, actions@));
            }
            return (d, actions);
        }
        if i == n {
            proof {
                assert(run_trace_ok(sources@, events@, trace, actions@));
            }
            return (d, actions);
        }
        if !fits(&d.phase, &events[i]) {
            proof {
                assert(run_trace_ok(sources@, events@, trace, actions@));
            }
            return (d, actions);
        }
        let ghost d_pre = d;
        let a = d.step(sources, &events[i]);
        proof {
            assert(step_rel(d_pre, sources@, events@[i as int], d, a));
            trace = trace.push(d);
        }
        actions.push(a);
        i += 1;
    }
}

} // verus!
