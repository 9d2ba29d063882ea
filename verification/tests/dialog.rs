use anime_cli::anilibria::Anilibria;
use anime_cli::driver::{run, Channel, Event, Op, Phase};
use anime_cli::player::Player;
use anime_cli::state::State;

fn sample_body() -> String {
    r#"[
      {"announce": null,
       "names": {"ru": "Девочка-волшебница", "en": "Madoka Magica"},
       "player": {
         "host": "cache.libria.fun",
         "series": {"first": 1, "last": 2, "string": "1-2"},
         "playlist": {
           "1": {"serie": 1, "hls": {"fhd": "/videos/1/fhd.m3u8", "hd": "/videos/1/hd.m3u8", "sd": "/videos/1/sd.m3u8"}},
           "2": {"serie": 2, "hls": {"fhd": null, "hd": null, "sd": "/videos/2/sd.m3u8"}}
         }
       }}
    ]"#
    .to_string()
}

fn line(s: &str) -> Event {
    Event::Line(Some(s.to_string()))
}

fn happy_events() -> Vec<Event> {
    vec![
        line("ru"),
        line("anilibria"),
        line("Madoka"),
        Event::Fetched(Ok(sample_body())),
        line("1"),
        line("1"),
        line("fhd"),
        line("mpv"),
        Event::Probed(true),
    ]
}

#[test]
fn happy_path_reaches_the_launch() {
    let sources = vec![Anilibria::new()];
    let mut events = happy_events();
    events.push(Event::Launched(Ok(())));
    let (d, actions) = run(&sources, &events);

    // six forward advances: the whole stage chain is on the stack
    assert_eq!(d.machine.state, State::LaunchPlayer);
    assert_eq!(
        d.machine.previous_states,
        vec![
            State::SelectLanguage,
            State::SelectSource,
            State::SelectAnime,
            State::SelectEpisode,
            State::SelectQuality,
            State::SelectPlayer,
        ]
    );

    // the query went out verbatim
    assert!(matches!(&actions[3].op, Op::FetchSearch(q) if q == "Madoka"));
    // the probe asked about the chosen player
    assert!(matches!(actions[8].op, Op::Probe(Player::Mpv)));
    // the launch carried a URL with the https scheme
    match &actions[9].op {
        Op::Launch(Player::Mpv, url) => {
            assert!(url.starts_with("https://"));
            assert_eq!(url, "https://cache.libria.fun/videos/1/fhd.m3u8");
        },
        _ => panic!("a successful probe must lead to a launch"),
    }
    // after the launch the next-action menu is offered
    assert!(matches!(d.phase, Phase::AwaitNextAction));
    assert!(actions[10].msgs.iter().any(|m| m.text.contains("Where to go next")));
}

#[test]
fn empty_input_at_the_source_stage_pops_to_language() {
    let sources = vec![Anilibria::new()];
    let events = vec![line("ru"), line("")];
    let (d, _) = run(&sources, &events);
    assert_eq!(d.machine.state, State::SelectLanguage);
    assert_eq!(d.machine.previous_states.len(), 0);
    assert!(matches!(d.phase, Phase::AwaitLanguage));
}

#[test]
fn empty_input_at_the_first_stage_ends_the_dialog() {
    let sources = vec![Anilibria::new()];
    let events = vec![Event::Line(None)];
    let (d, actions) = run(&sources, &events);
    assert!(matches!(d.phase, Phase::Done));
    assert!(matches!(actions.last().unwrap().op, Op::Quit));
    assert_eq!(actions.last().unwrap().msgs[0].text, "\nBye, peach!\n");
}

#[test]
fn invalid_quality_reprompts_then_a_valid_one_advances() {
    let sources = vec![Anilibria::new()];
    let mut events = vec![
        line("ru"),
        line("anilibria"),
        line("Madoka"),
        Event::Fetched(Ok(sample_body())),
        line("1"),
        line("2"),  // the episode that only offers sd
        line("fhd"),
    ];
    let (d, actions) = run(&sources, &events);
    assert_eq!(d.machine.state, State::SelectQuality);
    assert!(matches!(d.phase, Phase::AwaitQuality));
    let last = actions.last().unwrap();
    assert!(matches!(last.msgs[0].channel, Channel::Warning));
    assert_eq!(last.msgs[0].text, "Unknown quality `fhd`");

    events.push(line("1"));
    let (d, _) = run(&sources, &events);
    assert_eq!(d.machine.state, State::SelectPlayer);
}

#[test]
fn language_index_clamps_to_the_last_listed_language() {
    let sources = vec![Anilibria::new()];
    let (d, _) = run(&sources, &vec![line("9")]);
    assert_eq!(d.machine.state, State::SelectSource);

    let (d, _) = run(&sources, &vec![line("0")]);
    assert_eq!(d.machine.state, State::SelectSource);
}

#[test]
fn empty_search_reports_and_reprompts_for_a_name() {
    let sources = vec![Anilibria::new()];
    let events = vec![
        line("ru"),
        line("anilibria"),
        line("zzzzzzzzzz"),
        Event::Fetched(Ok("[]".to_string())),
    ];
    let (d, actions) = run(&sources, &events);
    assert_eq!(d.machine.state, State::SelectAnime);
    assert!(matches!(d.phase, Phase::AwaitAnimeName));
    let last = actions.last().unwrap();
    assert!(matches!(last.msgs[0].channel, Channel::Error));
    assert_eq!(last.msgs[0].text, "Anime list by query \"zzzzzzzzzz\" is empty\n");
    assert_eq!(last.msgs[1].text, "Enter anime name: ");
}

#[test]
fn rewind_from_the_post_launch_menu_to_the_episode_stage() {
    let sources = vec![Anilibria::new()];
    let mut events = happy_events();
    events.push(Event::Launched(Ok(())));
    events.push(line("episode"));
    let (d, actions) = run(&sources, &events);

    assert_eq!(d.machine.state, State::SelectEpisode);
    assert!(matches!(d.phase, Phase::AwaitEpisode));
    assert_eq!(
        d.machine.previous_states,
        vec![State::SelectLanguage, State::SelectSource, State::SelectAnime]
    );
    // entering the stage prompts with the episode range again
    assert!(actions.last().unwrap().msgs.iter().any(|m| m.text.contains("Episodes: 1-2")));
}

#[test]
fn rewind_accepts_the_menu_index_too() {
    let sources = vec![Anilibria::new()];
    let mut events = happy_events();
    events.push(Event::Launched(Ok(())));
    events.push(line("3"));
    let (d, _) = run(&sources, &events);
    assert_eq!(d.machine.state, State::SelectQuality);
    assert!(matches!(d.phase, Phase::AwaitQuality));
}

#[test]
fn a_failed_probe_shows_the_player_hint_and_asks_again() {
    let sources = vec![Anilibria::new()];
    let mut events = happy_events();
    events.pop();
    events.push(Event::Probed(false));
    let (d, actions) = run(&sources, &events);
    assert_eq!(d.machine.state, State::SelectPlayer);
    assert!(matches!(d.phase, Phase::AwaitPlayer));
    let last = actions.last().unwrap();
    assert!(matches!(last.msgs[0].channel, Channel::Error));
    assert!(last.msgs[0].text.contains("mpv --version"));
}

#[test]
fn a_failed_launch_reports_and_pops_to_the_player_stage() {
    let sources = vec![Anilibria::new()];
    let mut events = happy_events();
    events.push(Event::Launched(Err("no display".to_string())));
    let (d, actions) = run(&sources, &events);
    assert_eq!(d.machine.state, State::SelectPlayer);
    assert!(matches!(d.phase, Phase::AwaitPlayer));
    assert_eq!(actions.last().unwrap().msgs[0].text, "no display");
}

#[test]
fn empty_input_at_the_episode_stage_pops_to_the_anime_stage() {
    let sources = vec![Anilibria::new()];
    let events = vec![
        line("ru"),
        line("anilibria"),
        line("Madoka"),
        Event::Fetched(Ok(sample_body())),
        line("1"),
        line("   "),
    ];
    let (d, _) = run(&sources, &events);
    assert_eq!(d.machine.state, State::SelectAnime);
    assert!(matches!(d.phase, Phase::AwaitAnimeName));
}
