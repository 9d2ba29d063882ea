//! The verified mapping from a decoded JSON search response to the entity
//! graph: an array of anime records with names, episode range and playlist,
//! each stream fragment prefixed with the player host.

use vstd::prelude::*;
use vstd::string::StringExecFns;
use crate::json::JsonValue;
use crate::json::obj_get;
use crate::json::get_field;
use crate::schemas::{Anime, AnimeV, Names, NamesV, Player, PlayerV, Series, SeriesV, SerieInfo,
    SerieInfoV, spec_playlist_view};

verus! {

/// A string field of a JSON object.
pub open spec fn spec_str_field(o: Seq<(String, JsonValue)>, key: Seq<char>) -> Option<Seq<char>> {
    match obj_get(o, key) {
        Option::Some(JsonValue::Str(s)) => Option::Some(s@),
        _ => Option::None,
    }
}

/// An unsigned integer field of a JSON object.
pub open spec fn spec_u64_field(o: Seq<(String, JsonValue)>, key: Seq<char>) -> Option<u64> {
    match obj_get(o, key) {
        Option::Some(JsonValue::UInt(u)) => Option::Some(u),
        _ => Option::None,
    }
}

/// An object field of a JSON object.
pub open spec fn spec_obj_field(o: Seq<(String, JsonValue)>, key: Seq<char>) -> Option<
    Seq<(String, JsonValue)>,
> {
    match obj_get(o, key) {
        Option::Some(JsonValue::Obj(e)) => Option::Some(e@),
        _ => Option::None,
    }
}

/// A stream fragment of an `hls` object: the string under the tier key with
/// the host prepended; absent when the key is missing or not a string.
pub open spec fn spec_frag(
    hls: Seq<(String, JsonValue)>,
    key: Seq<char>,
    host: Seq<char>,
) -> Option<Seq<char>> {
    match obj_get(hls, key) {
        Option::Some(JsonValue::Str(s)) => Option::Some(host + s@),
        _ => Option::None,
    }
}

/// The names block of an anime record.
pub open spec fn spec_names_of(o: Seq<(String, JsonValue)>) -> Option<NamesV> {
    match spec_obj_field(o, "names"@) {
        Option::Some(no) => match (spec_str_field(no, "ru"@), spec_str_field(no, "en"@)) {
            (Option::Some(ru), Option::Some(en)) => Option::Some(NamesV { ru, en }),
            _ => Option::None,
        },
        Option::None => Option::None,
    }
}

/// The episode range of a player block; the bounds must fit an episode
/// number.
pub open spec fn spec_series_of(po: Seq<(String, JsonValue)>) -> Option<SeriesV> {
    match spec_obj_field(po, "series"@) {
        Option::Some(so) => match (
            spec_u64_field(so, "first"@),
            spec_u64_field(so, "last"@),
            spec_str_field(so, "string"@),
        ) {
            (Option::Some(f), Option::Some(l), Option::Some(st)) => if f <= u16::MAX && l
                <= u16::MAX {
                Option::Some(SeriesV { first: f as u16, last: l as u16, string: st })
            } else {
                Option::None
            },
            _ => Option::None,
        },
        Option::None => Option::None,
    }
}

/// One playlist value: its episode number and its streams, of which at least
/// one must be present.
pub open spec fn spec_serie_info_of(eo: Seq<(String, JsonValue)>, host: Seq<char>) -> Option<
    SerieInfoV,
> {
    match spec_u64_field(eo, "serie"@) {
        Option::Some(sn) => if sn <= u16::MAX {
            match spec_obj_field(eo, "hls"@) {
                Option::Some(h) => {
                    let si = SerieInfoV {
                        serie: sn as u16,
                        fhd: spec_frag(h, "fhd"@, host),
                        hd: spec_frag(h, "hd"@, host),
                        sd: spec_frag(h, "sd"@, host),
                    };
                    if si.wf() {
                        Option::Some(si)
                    } else {
                        Option::None
                    }
                },
                Option::None => Option::None,
            }
        } else {
            Option::None
        },
        Option::None => Option::None,
    }
}

/// One playlist entry: its key kept as it is, its value mapped.
pub open spec fn spec_playlist_entry(e: (String, JsonValue), host: Seq<char>) -> Option<
    (Seq<char>, SerieInfoV),
> {
    match e.1 {
        JsonValue::Obj(eo) => match spec_serie_info_of(eo@, host) {
            Option::Some(si) => Option::Some((e.0@, si)),
            Option::None => Option::None,
        },
        _ => Option::None,
    }
}

/// A whole playlist, every entry mapped in order.
pub open spec fn spec_playlist_of(entries: Seq<(String, JsonValue)>, host: Seq<char>) -> Option<
    Seq<(Seq<char>, SerieInfoV)>,
>
    decreases entries.len(),
{
    if entries.len() == 0 {
        Option::Some(Seq::empty())
    } else {
        match (spec_playlist_of(entries.drop_last(), host), spec_playlist_entry(
            entries.last(),
            host,
        )) {
            (Option::Some(rest), Option::Some(e)) => Option::Some(rest.push(e)),
            _ => Option::None,
        }
    }
}

/// The player block of an anime record.
pub open spec fn spec_player_of(o: Seq<(String, JsonValue)>) -> Option<PlayerV> {
    match spec_obj_field(o, "player"@) {
        Option::Some(po) => match spec_str_field(po, "host"@) {
            Option::Some(host) => match spec_series_of(po) {
                Option::Some(se) => match spec_obj_field(po, "playlist"@) {
                    Option::Some(pe) => match spec_playlist_of(pe, host) {
                        Option::Some(pl) => Option::Some(
                            PlayerV { host, series: se, playlist: pl },
                        ),
                        Option::None => Option::None,
                    },
                    Option::None => Option::None,
                },
                Option::None => Option::None,
            },
            Option::None => Option::None,
        },
        Option::None => Option::None,
    }
}

/// One anime record. The announcement is kept only when it is a string;
/// everything else is required.
pub open spec fn spec_anime_of(v: JsonValue) -> Option<AnimeV> {
    match v {
        JsonValue::Obj(o) => {
            let announce = match obj_get(o@, "announce"@) {
                Option::Some(JsonValue::Str(s)) => Option::Some(s@),
                _ => Option::None,
            };
            match (spec_names_of(o@), spec_player_of(o@)) {
                (Option::Some(names), Option::Some(player)) => Option::Some(
                    AnimeV { announce, names, player },
                ),
                _ => Option::None,
            }
        },
        _ => Option::None,
    }
}

/// A list of anime records, every element mapped in order.
pub open spec fn spec_titles_of(items: Seq<JsonValue>) -> Option<Seq<AnimeV>>
    decreases items.len(),
{
    if items.len() == 0 {
        Option::Some(Seq::empty())
    } else {
        match (spec_titles_of(items.drop_last()), spec_anime_of(items.last())) {
            (Option::Some(rest), Option::Some(a)) => Option::Some(rest.push(a)),
            _ => Option::None,
        }
    }
}

/// What a whole search response decodes to: the record list of its top-level
/// array, or nothing when the document has another shape.
pub open spec fn spec_response_titles(t: JsonValue) -> Option<Seq<AnimeV>> {
    match t {
        JsonValue::Arr(items) => spec_titles_of(items@),
        _ => Option::None,
    }
}

fn str_field(o: &Vec<(String, JsonValue)>, key: &str) -> (r: Option<String>)
    ensures
        match spec_str_field(o@, key@) {
            Option::Some(sv) => r matches Some(s) && s@ == sv,
            Option::None => r is None,
        },
{
    match get_field(o, key) {
        Option::Some(v) => match v {
            JsonValue::Str(s) => Option::Some(s.clone()),
            _ => Option::None,
        },
        Option::None => Option::None,
    }
}

fn u64_field(o: &Vec<(String, JsonValue)>, key: &str) -> (r: Option<u64>)
    ensures
        r == spec_u64_field(o@, key@),
{
    match get_field(o, key) {
        Option::Some(v) => match v {
            JsonValue::UInt(u) => Option::Some(*u),
            _ => Option::None,
        },
        Option::None => Option::None,
    }
}

fn obj_field<'a>(o: &'a Vec<(String, JsonValue)>, key: &str) -> (r: Option<
    &'a Vec<(String, JsonValue)>,
>)
    ensures
        match spec_obj_field(o@, key@) {
            Option::Some(e) => r matches Some(v) && v@ == e,
            Option::None => r is None,
        },
{
    match get_field(o, key) {
        Option::Some(v) => match v {
            JsonValue::Obj(e) => Option::Some(e),
            _ => Option::None,
        },
        Option::None => Option::None,
    }
}

fn frag_field(hls: &Vec<(String, JsonValue)>, key: &str, host: &String) -> (r: Option<String>)
    ensures
        match spec_frag(hls@, key@, host@) {
            Option::Some(fv) => r matches Some(f) && f@ == fv,
            Option::None => r is None,
        },
{
    match get_field(hls, key) {
        Option::Some(v) => match v {
            JsonValue::Str(s) => {
                let mut f = host.clone();
                f.append(s.as_str());
                Option::Some(f)
            },
            _ => Option::None,
        },
        Option::None => Option::None,
    }
}

fn names_from(o: &Vec<(String, JsonValue)>) -> (r: Option<Names>)
    ensures
        match spec_names_of(o@) {
            Option::Some(nv) => r matches Some(n) && n@ == nv,
            Option::None => r is None,
        },
{
    let no = match obj_field(o, "names") {
        Option::Some(no) => no,
        Option::None => {
            return Option::None;
        },
    };
    let ru = match str_field(no, "ru") {
        Option::Some(ru) => ru,
        Option::None => {
            return Option::None;
        },
    };
    let en = match str_field(no, "en") {
        Option::Some(en) => en,
        Option::None => {
            return Option::None;
        },
    };
    Option::Some(Names { ru, en })
}

fn series_from(po: &Vec<(String, JsonValue)>) -> (r: Option<Series>)
    ensures
        match spec_series_of(po@) {
            Option::Some(sv) => r matches Some(s) && s@ == sv,
            Option::None => r is None,
        },
{
    let so = match obj_field(po, "series") {
        Option::Some(so) => so,
        Option::None => {
            return Option::None;
        },
    };
    let first = match u64_field(so, "first") {
        Option::Some(f) => f,
        Option::None => {
            return Option::None;
        },
    };
    let last = match u64_field(so, "last") {
        Option::Some(l) => l,
        Option::None => {
            return Option::None;
        },
    };
    let string = match str_field(so, "string") {
        Option::Some(s) => s,
        Option::None => {
            return Option::None;
        },
    };
    if first <= u16::MAX as u64 && last <= u16::MAX as u64 {
        Option::Some(Series { first: first as u16, last: last as u16, string })
    } else {
        Option::None
    }
}

fn serie_info_from(eo: &Vec<(String, JsonValue)>, host: &String) -> (r: Option<SerieInfo>)
    ensures
        match spec_serie_info_of(eo@, host@) {
            Option::Some(sv) => r matches Some(s) && s@ == sv && sv.wf(),
            Option::None => r is None,
        },
{
    let serie = match u64_field(eo, "serie") {
        Option::Some(sn) => sn,
        Option::None => {
            return Option::None;
        },
    };
    if serie > u16::MAX as u64 {
        return Option::None;
    }
    let hls = match obj_field(eo, "hls") {
        Option::Some(h) => h,
        Option::None => {
            return Option::None;
        },
    };
    let fhd = frag_field(hls, "fhd", host);
    let hd = frag_field(hls, "hd", host);
    let sd = frag_field(hls, "sd", host);
    if fhd.is_none() && hd.is_none() && sd.is_none() {
        return Option::None;
    }
    Option::Some(SerieInfo { serie: serie as u16, fhd, hd, sd })
}

fn playlist_from(entries: &Vec<(String, JsonValue)>, host: &String) -> (r: Option<
    Vec<(String, SerieInfo)>,
>)
    ensures
        match spec_playlist_of(entries@, host@) {
            Option::Some(pl) => r matches Some(p) && spec_playlist_view(p@) == pl && (forall|k: int|
                0 <= k < pl.len() ==> (#[trigger] pl[k]).1.wf()),
            Option::None => r is None,
        },
{
    let n = entries.len();
    let mut out: Vec<(String, SerieInfo)> = Vec::new();
    let mut i: usize = 0;
    while i < n
        invariant
            i <= n,
            n == entries.len(),
            spec_playlist_of(entries@.subrange(0, i as int), host@) == Option::Some(
                spec_playlist_view(out@),
            ),
            forall|k: int| 0 <= k < out@.len() ==> (#[trigger] spec_playlist_view(out@)[k]).1.wf(),
        decreases n - i,
    {
        let entry = &entries[i];
        let si = match &entry.1 {
            JsonValue::Obj(eo) => match serie_info_from(eo, host) {
                Option::Some(si) => si,
                Option::None => {
                    proof {
                        lemma_playlist_none(entries@, host@, i as int);
                    }
                    return Option::None;
                },
            },
            _ => {
                proof {
                    lemma_playlist_none(entries@, host@, i as int);
                }
                return Option::None;
            },
        };
        let key = entry.0.clone();
        out.push((key, si));
        proof {
            let pre = entries@.subrange(0, i as int);
            let cur = entries@.subrange(0, i + 1 as int);
            assert(cur.drop_last() =~= pre);
            assert(cur.last() == entries@[i as int]);
            assert(spec_playlist_view(out@) =~= spec_playlist_view(out@.drop_last()).push(
                (out@.last().0@, out@.last().1@),
            ));
        }
        i += 1;
    }
    proof {
        assert(entries@.subrange(0, n as int) =~= entries@);
    }
    Option::Some(out)
}

proof fn lemma_playlist_none(entries: Seq<(String, JsonValue)>, host: Seq<char>, i: int)
    requires
        0 <= i < entries.len(),
        spec_playlist_entry(entries[i], host) is None,
    ensures
        spec_playlist_of(entries, host) is None,
    decreases entries.len(),
{
    if entries.len() > 0 {
        if i == entries.len() - 1 {
        } else {
            assert(entries.drop_last()[i] == entries[i]);
            lemma_playlist_none(entries.drop_last(), host, i);
        }
    }
}

fn player_from(o: &Vec<(String, JsonValue)>) -> (r: Option<Player>)
    ensures
        match spec_player_of(o@) {
            Option::Some(pv) => r matches Some(p) && p@ == pv && (forall|k: int|
                0 <= k < pv.playlist.len() ==> (#[trigger] pv.playlist[k]).1.wf()),
            Option::None => r is None,
        },
{
    let po = match obj_field(o, "player") {
        Option::Some(po) => po,
        Option::None => {
            return Option::None;
        },
    };
    let host = match str_field(po, "host") {
        Option::Some(h) => h,
        Option::None => {
            return Option::None;
        },
    };
    let series = match series_from(po) {
        Option::Some(s) => s,
        Option::None => {
            return Option::None;
        },
    };
    let pe = match obj_field(po, "playlist") {
        Option::Some(pe) => pe,
        Option::None => {
            return Option::None;
        },
    };
    let playlist = match playlist_from(pe, &host) {
        Option::Some(pl) => pl,
        Option::None => {
            return Option::None;
        },
    };
    Option::Some(Player { host, series, playlist })
}

/// Maps one element of the response array to an anime record.
pub fn anime_from(v: &JsonValue) -> (r: Option<Anime>)
    ensures
        match spec_anime_of(*v) {
            Option::Some(av) => r matches Some(a) && a@ == av && av.wf(),
            Option::None => r is None,
        },
{
    let o = match v {
        JsonValue::Obj(o) => o,
        _ => {
            return Option::None;
        },
    };
    let announce = str_field(o, "announce");
    let names = match names_from(o) {
        Option::Some(n) => n,
        Option::None => {
            return Option::None;
        },
    };
    let player = match player_from(o) {
        Option::Some(p) => p,
        Option::None => {
            return Option::None;
        },
    };
    Option::Some(Anime { announce, names, player })
}

proof fn lemma_titles_none(items: Seq<JsonValue>, i: int)
    requires
        0 <= i < items.len(),
        spec_anime_of(items[i]) is None,
    ensures
        spec_titles_of(items) is None,
    decreases items.len(),
{
    if items.len() > 0 {
        if i == items.len() - 1 {
        } else {
            assert(items.drop_last()[i] == items[i]);
            lemma_titles_none(items.drop_last(), i);
        }
    }
}

/// Maps a whole decoded response to the list of anime records. Returns
/// `None` when the document is not an array of well-shaped records.
pub fn titles_from_tree(t: &JsonValue) -> (r: Option<Vec<Anime>>)
    ensures
        match spec_response_titles(*t) {
            Option::Some(list) => r matches Some(v) && v@.map_values(|a: Anime| a@) == list && (
            forall|k: int| 0 <= k < list.len() ==> (#[trigger] list[k]).wf()),
            Option::None => r is None,
        },
{
    let items = match t {
        JsonValue::Arr(items) => items,
        _ => {
            return Option::None;
        },
    };
    let n = items.len();
    let mut out: Vec<Anime> = Vec::new();
    let mut i: usize = 0;
    while i < n
        invariant
            i <= n,
            n == items.len(),
            spec_response_titles(*t) == spec_titles_of(items@),
            spec_titles_of(items@.subrange(0, i as int)) == Option::Some(
                out@.map_values(|a: Anime| a@),
            ),
            forall|k: int| 0 <= k < out@.len() ==> (#[trigger] out@[k])@.wf(),
        decreases n - i,
    {
        let a = match anime_from(&items[i]) {
            Option::Some(a) => a,
            Option::None => {
                proof {
                    lemma_titles_none(items@, i as int);
                }
                return Option::None;
            },
        };
        out.push(a);
        proof {
            let pre = items@.subrange(0, i as int);
            let cur = items@.subrange(0, i + 1 as int);
            assert(cur.drop_last() =~= pre);
            assert(cur.last() == items@[i as int]);
            assert(out@.map_values(|x: Anime| x@) =~= out@.drop_last().map_values(
                |x: Anime| x@,
            ).push(out@.last()@));
        }
        i += 1;
    }
    proof {
        assert(items@.subrange(0, n as int) =~= items@);
    }
    Option::Some(out)
}

} // verus!
