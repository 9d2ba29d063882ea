//! The external video players the dialog can hand a stream to.

use vstd::prelude::*;
use vstd::string::StringExecFns;
use crate::errors::PlayerError;
use crate::text::lower_seq;
use crate::text::eq_ignore_case;

verus! {

/// A supported external player.
#[derive(Clone, Copy, PartialEq, Eq, Structural, Debug)]
pub enum Player {
    Mpv,
}

/// Every supported player, in listing order.
pub fn players() -> (r: Vec<Player>)
    ensures
        r@ == seq![Player::Mpv],
{
    let mut v: Vec<Player> = Vec::new();
    v.push(Player::Mpv);
    proof {
        assert(v@ =~= seq![Player::Mpv]);
    }
    v
}

/// The player a token names, under ASCII case folding.
pub open spec fn spec_player_of(s: Seq<char>) -> Option<Player> {
    if lower_seq(s) == "mpv"@ {
        Option::Some(Player::Mpv)
    } else {
        Option::None
    }
}

/// The install-help text of a player.
pub open spec fn spec_player_doc(p: Player) -> Seq<char> {
    match p {
        Player::Mpv => {
            "Are you sure you have MPV installed? \
                Try running `mpv --version` in your terminal. \
                If you don't have MPV installed, you can install it from https://mpv.io/installation/ \
                or use another player."@
        },
    }
}

impl Player {
    /// A hint on how to install the player.
    pub fn doc(&self) -> (r: &'static str)
        ensures
            r@ == spec_player_doc(*self),
    {
        match self {
            Player::Mpv => {
                "Are you sure you have MPV installed? \
                Try running `mpv --version` in your terminal. \
                If you don't have MPV installed, you can install it from https://mpv.io/installation/ \
                or use another player."
            },
        }
    }

    /// Reads a player from its case-insensitive name.
    pub fn try_from(token: &str) -> (r: Result<Player, PlayerError>)
        ensures
            match spec_player_of(token@) {
                Option::Some(p) => r matches Ok(x) && x == p,
                Option::None => (r matches Err(PlayerError::UnknownPlayer(m)) && m@
                    == "Unknown player `"@ + token@ + "`"@),
            },
    {
        proof {
            reveal_strlit("mpv");
            assert(lower_seq("mpv"@) =~= "mpv"@);
        }
        if eq_ignore_case(token, "mpv") {
            Result::Ok(Player::Mpv)
        } else {
            let mut m = "Unknown player `".to_owned();
            m.append(token);
            m.append("`");
            Result::Err(PlayerError::UnknownPlayer(m))
        }
    }

    /// The printable name of the player.
    pub fn name(&self) -> (r: String)
        ensures
            self is Mpv ==> r@ == "MPV"@,
    {
        match self {
            Player::Mpv => "MPV".to_owned(),
        }
    }
}

} // verus!
