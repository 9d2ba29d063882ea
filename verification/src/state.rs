//! The stages of the selection dialog, and the result a stage routine hands
//! back.

use vstd::prelude::*;
use vstd::string::StringExecFns;
use crate::errors::StateError;
use crate::text::lower_seq;
use crate::text::eq_ignore_case;

verus! {

/// One stage of the dialog. The stages progress in the order they are
/// declared here.
#[derive(Clone, Copy, PartialEq, Eq, Structural, Debug)]
pub enum State {
    SelectLanguage,
    SelectSource,
    SelectAnime,
    SelectEpisode,
    SelectQuality,
    SelectPlayer,
    LaunchPlayer,
}

/// The position of a stage in the progression order.
pub open spec fn rank(s: State) -> int {
    match s {
        State::SelectLanguage => 0,
        State::SelectSource => 1,
        State::SelectAnime => 2,
        State::SelectEpisode => 3,
        State::SelectQuality => 4,
        State::SelectPlayer => 5,
        State::LaunchPlayer => 6,
    }
}

/// The printable name of a stage.
pub open spec fn spec_state_name(s: State) -> Seq<char> {
    match s {
        State::SelectLanguage => "Select Language"@,
        State::SelectSource => "Select Source"@,
        State::SelectAnime => "Select Anime"@,
        State::SelectEpisode => "Select Episode"@,
        State::SelectQuality => "Select Quality"@,
        State::SelectPlayer => "Select Player"@,
        State::LaunchPlayer => "Launch Player"@,
    }
}

/// The stage a token names, under ASCII case folding.
pub open spec fn spec_state_of(s: Seq<char>) -> Option<State> {
    let l = lower_seq(s);
    if l == "language"@ || l == "lang"@ {
        Option::Some(State::SelectLanguage)
    } else if l == "source"@ {
        Option::Some(State::SelectSource)
    } else if l == "anime"@ {
        Option::Some(State::SelectAnime)
    } else if l == "episode"@ {
        Option::Some(State::SelectEpisode)
    } else if l == "quality"@ {
        Option::Some(State::SelectQuality)
    } else if l == "player"@ {
        Option::Some(State::SelectPlayer)
    } else if l == "launch"@ {
        Option::Some(State::LaunchPlayer)
    } else {
        Option::None
    }
}

impl State {
    /// Reads a stage from its case-insensitive alias: `language`, `lang`,
    /// `source`, `anime`, `episode`, `quality`, `player` or `launch`.
    pub fn try_from(token: &str) -> (r: Result<State, StateError>)
        ensures
            match spec_state_of(token@) {
                Option::Some(st) => r matches Ok(x) && x == st,
                Option::None => (r matches Err(StateError::UnknownState(m)) && m@
                    == "Unknown state `"@ + token@ + "`"@),
            },
    {
        proof {
            reveal_strlit("language");
            reveal_strlit("lang");
            reveal_strlit("source");
            reveal_strlit("anime");
            reveal_strlit("episode");
            reveal_strlit("quality");
            reveal_strlit("player");
            reveal_strlit("launch");
            assert(lower_seq("language"@) =~= "language"@);
            assert(lower_seq("lang"@) =~= "lang"@);
            assert(lower_seq("source"@) =~= "source"@);
            assert(lower_seq("anime"@) =~= "anime"@);
            assert(lower_seq("episode"@) =~= "episode"@);
            assert(lower_seq("quality"@) =~= "quality"@);
            assert(lower_seq("player"@) =~= "player"@);
            assert(lower_seq("launch"@) =~= "launch"@);
        }
        if eq_ignore_case(token, "language") || eq_ignore_case(token, "lang") {
            Result::Ok(State::SelectLanguage)
        } else if eq_ignore_case(token, "source") {
            Result::Ok(State::SelectSource)
        } else if eq_ignore_case(token, "anime") {
            Result::Ok(State::SelectAnime)
        } else if eq_ignore_case(token, "episode") {
            Result::Ok(State::SelectEpisode)
        } else if eq_ignore_case(token, "quality") {
            Result::Ok(State::SelectQuality)
        } else if eq_ignore_case(token, "player") {
            Result::Ok(State::SelectPlayer)
        } else if eq_ignore_case(token, "launch") {
            Result::Ok(State::LaunchPlayer)
        } else {
            let mut m = "Unknown state `".to_owned();
            m.append(token);
            m.append("`");
            Result::Err(StateError::UnknownState(m))
        }
    }

    /// The printable name of the stage.
    pub fn name(&self) -> (r: &'static str)
        ensures
            r@ == spec_state_name(*self),
    {
        match self {
            State::SelectLanguage => "Select Language",
            State::SelectSource => "Select Source",
            State::SelectAnime => "Select Anime",
            State::SelectEpisode => "Select Episode",
            State::SelectQuality => "Select Quality",
            State::SelectPlayer => "Select Player",
            State::LaunchPlayer => "Launch Player",
        }
    }
}

impl Default for State {
    /// A dialog starts at the language stage.
    fn default() -> (r: Self)
        ensures
            r == State::SelectLanguage,
    {
        State::SelectLanguage
    }
}

/// What a stage routine hands back: a committed value, or the wish to go
/// back one stage.
pub enum ResultState<T> {
    Success(T),
    Break,
}

} // verus!
