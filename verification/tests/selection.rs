use anime_cli::anilibria::Anilibria;
use anime_cli::driver::{filter_sources, finish, select_language, tally_languages, StageOutcome};
use anime_cli::language::Language;
use anime_cli::player::{players, Player};
use anime_cli::prompt::{process_select_variant, read_pos_num_or_none, resolve_index, select_variant,
    IndexOutcome};
use anime_cli::state::State;
use anime_cli::text::{chars_of, contains_chars, dec_of_u64, eq_ignore_case, normalized_line,
    parse_num, str_eq, trimmed, NumParse};

#[test]
fn trimming_strips_both_ends() {
    assert_eq!(trimmed("  madoka \n"), "madoka");
    assert_eq!(trimmed("\t\t"), "");
    assert_eq!(trimmed("x"), "x");
}

#[test]
fn empty_trimmed_input_normalizes_to_none() {
    assert_eq!(normalized_line(&Some("   \n".to_string())), None);
    assert_eq!(normalized_line(&None), None);
    assert_eq!(normalized_line(&Some(" ru ".to_string())), Some("ru".to_string()));
}

#[test]
fn numeric_prompt_reads_trimmed_numbers() {
    assert_eq!(read_pos_num_or_none(&Some(" 42 ".to_string())), Some(42));
    assert_eq!(read_pos_num_or_none(&Some("+7".to_string())), Some(7));
    assert_eq!(read_pos_num_or_none(&Some("abc".to_string())), None);
    assert_eq!(read_pos_num_or_none(&Some("".to_string())), None);
    assert_eq!(read_pos_num_or_none(&None), None);
}

#[test]
fn parse_num_distinguishes_the_protocol_outcomes() {
    assert!(matches!(parse_num("12"), NumParse::Num(12)));
    assert!(matches!(parse_num("+3"), NumParse::Num(3)));
    assert!(matches!(parse_num("18446744073709551615"), NumParse::Num(u64::MAX)));
    assert!(matches!(parse_num("18446744073709551616"), NumParse::Overflow));
    assert!(matches!(parse_num("-5"), NumParse::Negative));
    assert!(matches!(parse_num("1x"), NumParse::NotNum));
    assert!(matches!(parse_num(""), NumParse::NotNum));
    assert!(matches!(parse_num("-"), NumParse::NotNum));
}

#[test]
fn index_resolution_clamps_to_the_listing_ends() {
    assert!(matches!(resolve_index("0", 3), IndexOutcome::Chosen(0)));
    assert!(matches!(resolve_index("1", 3), IndexOutcome::Chosen(0)));
    assert!(matches!(resolve_index("3", 3), IndexOutcome::Chosen(2)));
    assert!(matches!(resolve_index("9", 3), IndexOutcome::Chosen(2)));
    assert!(matches!(resolve_index("x", 3), IndexOutcome::NotIndex));
    match resolve_index("-2", 3) {
        IndexOutcome::Invalid(m) => assert_eq!(m, "Sequence number must be greater than 0"),
        _ => panic!("a negative index must be reported"),
    }
    match resolve_index("99999999999999999999", 3) {
        IndexOutcome::Invalid(m) => {
            assert_eq!(m, "Sequence number must be less than 18446744073709551615")
        },
        _ => panic!("an overflowing index must be reported"),
    }
}

#[test]
fn variant_lookup_is_case_insensitive_and_first_wins() {
    let variants: Vec<(String, u32)> = vec![
        ("first".to_string(), 10),
        ("last".to_string(), 20),
        ("first".to_string(), 30),
    ];
    assert_eq!(select_variant("FIRST", &variants), Some(&10));
    assert_eq!(select_variant("Last", &variants), Some(&20));
    assert_eq!(select_variant("nope", &variants), None);

    assert_eq!(process_select_variant(&Some(" first ".to_string()), &variants), Some(&10));
    assert_eq!(process_select_variant(&Some("  ".to_string()), &variants), None);
    assert_eq!(process_select_variant(&None, &variants), None);
}

#[test]
fn language_aliases_parse_case_insensitively() {
    assert!(matches!(Language::try_from("RU"), Ok(Language::Russian)));
    assert!(matches!(Language::try_from("rus"), Ok(Language::Russian)));
    assert!(matches!(Language::try_from("Russian"), Ok(Language::Russian)));
    assert!(matches!(Language::try_from("ALL"), Ok(Language::All)));
    match Language::try_from("xx") {
        Err(e) => assert_eq!(e.message(), "Unknown language `xx`"),
        Ok(_) => panic!("an unknown language must be refused"),
    }
    assert_eq!(Language::default(), Language::All);
}

#[test]
fn player_aliases_parse_case_insensitively() {
    assert!(matches!(Player::try_from("MPV"), Ok(Player::Mpv)));
    match Player::try_from("vlc") {
        Err(e) => assert_eq!(e.message(), "Unknown player `vlc`"),
        Ok(_) => panic!("an unknown player must be refused"),
    }
    assert_eq!(players(), vec![Player::Mpv]);
    assert!(Player::Mpv.doc().contains("mpv --version"));
    assert_eq!(Player::Mpv.name(), "MPV");
}

#[test]
fn state_aliases_parse_case_insensitively() {
    assert!(matches!(State::try_from("EPISODE"), Ok(State::SelectEpisode)));
    assert!(matches!(State::try_from("lang"), Ok(State::SelectLanguage)));
    assert!(matches!(State::try_from("launch"), Ok(State::LaunchPlayer)));
    match State::try_from("nowhere") {
        Err(e) => assert_eq!(e.message(), "Unknown state `nowhere`"),
        Ok(_) => panic!("an unknown state must be refused"),
    }
    assert_eq!(State::default(), State::SelectLanguage);
    assert_eq!(State::SelectQuality.name(), "Select Quality");
}

#[test]
fn decimal_formatting_is_exact() {
    assert_eq!(dec_of_u64(0), "0");
    assert_eq!(dec_of_u64(7), "7");
    assert_eq!(dec_of_u64(120), "120");
    assert_eq!(dec_of_u64(65535), "65535");
}

#[test]
fn case_folding_and_containment() {
    assert!(eq_ignore_case("AbC", "abc"));
    assert!(!eq_ignore_case("a", "b"));
    assert!(str_eq("same", "same"));
    assert!(!str_eq("same", "Same"));
    assert!(contains_chars(&chars_of("Hello World"), &chars_of("o W")));
    assert!(!contains_chars(&chars_of("Hello World"), &chars_of("o w")));
    assert!(!contains_chars(&chars_of("Hello"), &chars_of("xyz")));
    assert!(contains_chars(&chars_of("abc"), &chars_of("")));
}

#[test]
fn language_index_over_two_entries_clamps_to_the_last() {
    let langs = vec![(Language::Russian, 3), (Language::All, 1)];
    match select_language(&langs, &Some("9".to_string())) {
        StageOutcome::Chosen(l) => assert_eq!(l, Language::All),
        _ => panic!("an over-large index must clamp to the last entry"),
    }
    match select_language(&langs, &Some("0".to_string())) {
        StageOutcome::Chosen(l) => assert_eq!(l, Language::Russian),
        _ => panic!("an under-one index must clamp to the first entry"),
    }
}

#[test]
fn language_alias_wins_over_any_listing_order() {
    let langs = vec![(Language::All, 5), (Language::Russian, 1)];
    match select_language(&langs, &Some("ru".to_string())) {
        StageOutcome::Chosen(l) => assert_eq!(l, Language::Russian),
        _ => panic!("an alias must win over the index reading"),
    }
    match select_language(&langs, &Some("  ".to_string())) {
        StageOutcome::Back => {},
        _ => panic!("empty input must go back"),
    }
    match select_language(&langs, &Some("klingon".to_string())) {
        StageOutcome::Retry(m) => assert_eq!(m, "Unknown language `klingon`"),
        _ => panic!("an unknown word must be reported"),
    }
}

#[test]
fn source_identity_and_listing_helpers() {
    let src = Anilibria::new();
    assert_eq!(src.api_url(), "https://api.anilibria.tv/v2");
    assert_eq!(src.name(), "Anilibria");
    assert_eq!(src.display_name(), "Anilibria (Russian)");
    assert_eq!(src.language(), Language::Russian);
    assert!(src.name_matches("AniLibria"));
    assert!(src.name_matches("anilibria.tv"));
    assert!(src.name_matches("ANILIB"));
    assert!(!src.name_matches("anilibri"));

    let sources = vec![Anilibria::new()];
    assert_eq!(tally_languages(&sources), vec![(Language::Russian, 1)]);
    assert_eq!(filter_sources(&sources, &Language::All), vec![0]);
    assert_eq!(filter_sources(&sources, &Language::Russian), vec![0]);

    assert_eq!(finish(), "\nBye, peach!\n");
}
