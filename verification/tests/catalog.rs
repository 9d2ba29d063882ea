use anime_cli::anilibria::Anilibria;
use anime_cli::errors::SourceError;
use anime_cli::schemas::{Anime, Names, Player, Series, SerieInfo};
use anime_cli::source::Source;

fn sample_body() -> String {
    r#"[
      {"announce": "New episode on Sunday",
       "names": {"ru": "Девочка-волшебница", "en": "Madoka Magica"},
       "player": {
         "host": "cache.libria.fun",
         "series": {"first": 1, "last": 2, "string": "1-2"},
         "playlist": {
           "1": {"serie": 1, "hls": {"fhd": "/videos/1/fhd.m3u8", "hd": "/videos/1/hd.m3u8", "sd": "/videos/1/sd.m3u8"}},
           "2": {"serie": 2, "hls": {"fhd": null, "hd": null, "sd": "/videos/2/sd.m3u8"}}
         }
       }},
      {"announce": null,
       "names": {"ru": "Стальной алхимик", "en": "Fullmetal Alchemist"},
       "player": {
         "host": "https://cdn.libria.fun",
         "series": {"first": 1, "last": 1, "string": "Movie"},
         "playlist": {
           "1": {"serie": 1, "hls": {"fhd": "/film/fhd.m3u8", "hd": null, "sd": null}}
         }
       }}
    ]"#
    .to_string()
}

fn searched() -> Anilibria {
    let mut src = Anilibria::new();
    src.search_anime_list("Madoka", Ok(sample_body())).expect("the sample body decodes");
    src
}

#[test]
fn search_returns_the_numbered_listing() {
    let mut src = Anilibria::new();
    let listing = src.search_anime_list("Madoka", Ok(sample_body())).unwrap();
    assert_eq!(
        listing,
        "\t1. Девочка-волшебница | Madoka Magica | New episode on Sunday\n\t2. Стальной алхимик | Fullmetal Alchemist\n"
    );
}

#[test]
fn empty_search_is_an_api_error_with_the_exact_message() {
    let mut src = Anilibria::new();
    match src.search_anime_list("zzzzzzzzzz", Ok("[]".to_string())) {
        Err(SourceError::ApiError(m)) => {
            assert_eq!(m, "Anime list by query \"zzzzzzzzzz\" is empty")
        },
        _ => panic!("an empty result list must be an ApiError"),
    }
}

#[test]
fn empty_search_keeps_the_previous_list() {
    let mut src = searched();
    src.select_anime_as_current("1".to_string()).unwrap();
    assert!(src.search_anime_list("zzzzzzzzzz", Ok("[]".to_string())).is_err());
    // the earlier list is still there: the second entry still resolves
    src.select_anime_as_current("2".to_string()).unwrap();
    assert_eq!(src.anime_info().unwrap(), "Стальной алхимик | Fullmetal Alchemist");
}

#[test]
fn transport_failure_is_an_api_error() {
    let mut src = Anilibria::new();
    match src.search_anime_list("x", Err("connection refused".to_string())) {
        Err(SourceError::ApiError(m)) => assert_eq!(m, "Api error: connection refused"),
        _ => panic!("a transport failure must be an ApiError"),
    }
}

#[test]
fn malformed_json_is_a_parse_error() {
    let mut src = Anilibria::new();
    match src.search_anime_list("x", Ok("not json at all".to_string())) {
        Err(SourceError::ParseError(m)) => assert!(m.starts_with("Parse error: ")),
        _ => panic!("malformed text must be a ParseError"),
    }
}

#[test]
fn wrong_shape_is_a_parse_error() {
    let mut src = Anilibria::new();
    match src.search_anime_list("x", Ok("{}".to_string())) {
        Err(SourceError::ParseError(m)) => {
            assert_eq!(m, "Parse error: unexpected structure of the anime list")
        },
        _ => panic!("a non-array document must be a ParseError"),
    }
    match src.search_anime_list("x", Ok(r#"[{"names": 3}]"#.to_string())) {
        Err(SourceError::ParseError(_)) => {},
        _ => panic!("a record without names must be a ParseError"),
    }
}

#[test]
fn anime_resolves_by_substring_before_index() {
    let mut src = searched();
    src.select_anime_as_current("madoka".to_string()).unwrap();
    assert_eq!(
        src.anime_info().unwrap(),
        "Девочка-волшебница | Madoka Magica | New episode on Sunday"
    );
    src.select_anime_as_current("FULLMETAL".to_string()).unwrap();
    assert_eq!(src.anime_info().unwrap(), "Стальной алхимик | Fullmetal Alchemist");
}

#[test]
fn anime_substring_match_folds_unicode_case() {
    let mut src = searched();
    // the query differs from the stored name only in Cyrillic case
    src.select_anime_as_current("ДЕВОЧКА".to_string()).unwrap();
    assert_eq!(
        src.anime_info().unwrap(),
        "Девочка-волшебница | Madoka Magica | New episode on Sunday"
    );
}

#[test]
fn anime_resolves_by_sequence_number() {
    let mut src = searched();
    src.select_anime_as_current("2".to_string()).unwrap();
    assert_eq!(src.anime_info().unwrap(), "Стальной алхимик | Fullmetal Alchemist");
    match src.select_anime_as_current("0".to_string()) {
        Err(SourceError::UnknownVariant(m)) => {
            assert_eq!(m, "Unknown anime sequence number `0`")
        },
        _ => panic!("an out-of-range number must be refused"),
    }
    match src.select_anime_as_current("3".to_string()) {
        Err(SourceError::UnknownVariant(m)) => {
            assert_eq!(m, "Unknown anime sequence number `3`")
        },
        _ => panic!("an out-of-range number must be refused"),
    }
    match src.select_anime_as_current("x!".to_string()) {
        Err(SourceError::UnknownVariant(m)) => assert_eq!(m, "Unknown anime name `x!`"),
        _ => panic!("an unknown name must be refused"),
    }
}

#[test]
fn episode_bound_aliases_resolve_in_any_case() {
    let mut src = searched();
    src.select_anime_as_current("1".to_string()).unwrap();
    assert_eq!(src.episodes_info().unwrap(), "1-2");

    src.select_episode_as_current("FIRST".to_string()).unwrap();
    assert_eq!(src.episode_info().unwrap(), "1");
    src.select_episode_as_current("f".to_string()).unwrap();
    assert_eq!(src.episode_info().unwrap(), "1");
    src.select_episode_as_current("Last".to_string()).unwrap();
    assert_eq!(src.episode_info().unwrap(), "2");
    src.select_episode_as_current("L".to_string()).unwrap();
    assert_eq!(src.episode_info().unwrap(), "2");
}

#[test]
fn episode_numbers_must_be_playlist_keys() {
    let mut src = searched();
    src.select_anime_as_current("1".to_string()).unwrap();

    src.select_episode_as_current("2".to_string()).unwrap();
    assert_eq!(src.episode_info().unwrap(), "2");

    match src.select_episode_as_current("3".to_string()) {
        Err(SourceError::UnknownVariant(m)) => assert_eq!(m, "Unknown episode number `3`"),
        _ => panic!("a number missing from the playlist must be refused"),
    }
    match src.select_episode_as_current("70000".to_string()) {
        Err(SourceError::UnknownVariant(m)) => {
            assert_eq!(m, "Episode number must be less than 65535")
        },
        _ => panic!("an overflowing number must be refused"),
    }
    match src.select_episode_as_current("nope".to_string()) {
        Err(SourceError::UnknownVariant(m)) => {
            assert_eq!(m, "Unknown episode pattern `nope`. Possible patterns: first|f, last|l")
        },
        _ => panic!("an unknown pattern must be refused"),
    }
}

#[test]
fn quality_listing_shows_only_present_tiers() {
    let mut src = searched();
    src.select_anime_as_current("1".to_string()).unwrap();
    src.select_episode_as_current("1".to_string()).unwrap();
    assert_eq!(
        src.qualities_info().unwrap(),
        "\t1 | sd | 360p | 480p | min\n\t2 | hd | 720p | avg\n\t3 | fhd | 1080p | full | max\n"
    );
    src.select_episode_as_current("2".to_string()).unwrap();
    assert_eq!(src.qualities_info().unwrap(), "\t1 | sd | 360p | 480p | min\n");
}

#[test]
fn quality_alias_resolves_exactly_when_the_tier_is_present() {
    let mut src = searched();
    src.select_anime_as_current("1".to_string()).unwrap();
    src.select_episode_as_current("2".to_string()).unwrap();

    match src.select_quality_as_current("fhd".to_string()) {
        Err(SourceError::UnknownVariant(m)) => assert_eq!(m, "Unknown quality `fhd`"),
        _ => panic!("an absent tier must be refused"),
    }
    src.select_quality_as_current("1".to_string()).unwrap();
    assert_eq!(
        src.url_for_stream().unwrap(),
        "https://cache.libria.fun/videos/2/sd.m3u8"
    );

    src.select_episode_as_current("1".to_string()).unwrap();
    src.select_quality_as_current("720".to_string()).unwrap();
    assert_eq!(
        src.url_for_stream().unwrap(),
        "https://cache.libria.fun/videos/1/hd.m3u8"
    );
    src.select_quality_as_current("MAX".to_string()).unwrap();
    assert_eq!(
        src.url_for_stream().unwrap(),
        "https://cache.libria.fun/videos/1/fhd.m3u8"
    );
    match src.select_quality_as_current("4".to_string()) {
        Err(SourceError::UnknownVariant(m)) => assert_eq!(m, "Unknown quality `4`"),
        _ => panic!("an unknown token must be refused"),
    }
}

#[test]
fn schema_lines_render_like_the_listings() {
    let names = Names { ru: "Имя".to_string(), en: "Name".to_string() };
    assert_eq!(names.line(), "Имя | Name");

    let series = Series { first: 1, last: 24, string: "1-24".to_string() };
    assert_eq!(series.line(), "1-24");

    let info = SerieInfo { serie: 7, fhd: None, hd: None, sd: Some("x".to_string()) };
    assert_eq!(info.line(), "7");

    let anime = Anime {
        announce: Some("soon".to_string()),
        names,
        player: Player { host: "h".to_string(), series, playlist: vec![] },
    };
    assert_eq!(anime.line(), "Имя | Name | soon");
}

#[test]
fn selection_probes_track_the_cursors() {
    let mut src = Anilibria::new();
    assert!(!src.has_current_anime());
    assert!(!src.has_current_episode());
    assert!(!src.has_current_stream());

    src.search_anime_list("Madoka", Ok(sample_body())).unwrap();
    src.select_anime_as_current("1".to_string()).unwrap();
    assert!(src.has_current_anime());
    src.select_episode_as_current("1".to_string()).unwrap();
    assert!(src.has_current_episode());
    src.select_quality_as_current("sd".to_string()).unwrap();
    assert!(src.has_current_stream());

    // a fresh search clears every cursor
    src.search_anime_list("Madoka", Ok(sample_body())).unwrap();
    assert!(!src.has_current_anime());
    assert!(!src.has_current_episode());
    assert!(!src.has_current_stream());
}

#[test]
fn the_source_contract_drives_the_same_operations() {
    let mut src = Anilibria::new();
    assert_eq!(Source::language(&src), anime_cli::language::Language::Russian);
    Source::search_anime_list(&mut src, "Madoka", Ok(sample_body())).unwrap();
    Source::select_anime_as_current(&mut src, "madoka".to_string()).unwrap();
    Source::select_episode_as_current(&mut src, "first".to_string()).unwrap();
    assert_eq!(Source::episode_info(&src).unwrap(), "1");
    Source::select_quality_as_current(&mut src, "hd".to_string()).unwrap();
    assert_eq!(
        Source::url_for_stream(&src).unwrap(),
        "https://cache.libria.fun/videos/1/hd.m3u8"
    );
}

#[test]
fn absolute_fragments_keep_their_scheme() {
    let mut src = searched();
    src.select_anime_as_current("2".to_string()).unwrap();
    assert_eq!(src.episodes_info().unwrap(), "Movie");
    src.select_episode_as_current("first".to_string()).unwrap();
    src.select_quality_as_current("full".to_string()).unwrap();
    // the host already carries a scheme, so nothing is prepended
    assert_eq!(src.url_for_stream().unwrap(), "https://cdn.libria.fun/film/fhd.m3u8");
}
