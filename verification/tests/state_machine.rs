use anime_cli::anilibria::Anilibria;
use anime_cli::data::Data;
use anime_cli::language::Language;
use anime_cli::player::Player;
use anime_cli::state::State;
use anime_cli::state_machine::StateMachine;

#[test]
fn advance_pushes_current_and_grows_history() {
    let mut m = StateMachine::default();
    assert_eq!(m.current_state(), State::SelectLanguage);
    assert_eq!(m.previous_states.len(), 0);

    m.set_state(State::SelectSource);
    assert_eq!(m.current_state(), State::SelectSource);
    assert_eq!(m.previous_states, vec![State::SelectLanguage]);

    m.set_state(State::SelectAnime);
    assert_eq!(m.previous_states, vec![State::SelectLanguage, State::SelectSource]);
}

#[test]
fn advance_then_back_restores_stage_and_history() {
    let mut m = StateMachine::default();
    m.set_state(State::SelectSource);
    m.set_state(State::SelectAnime);
    let before_stack = m.previous_states.clone();
    let before_state = m.current_state();

    m.set_state(State::SelectEpisode);
    assert_eq!(m.previous_states.len(), before_stack.len() + 1);
    m.set_previous_state();

    assert_eq!(m.current_state(), before_state);
    assert_eq!(m.previous_states, before_stack);
}

#[test]
fn back_at_empty_history_changes_nothing() {
    let mut m = StateMachine::default();
    m.set_previous_state();
    assert_eq!(m.current_state(), State::SelectLanguage);
    assert_eq!(m.previous_states.len(), 0);
}

#[test]
fn rewind_truncates_to_first_occurrence() {
    let mut m = StateMachine::default();
    m.set_state(State::SelectSource);
    m.set_state(State::SelectAnime);
    m.set_state(State::SelectEpisode);
    m.set_state(State::SelectQuality);
    // history: [Language, Source, Anime, Episode]

    m.set_previous_state_and_truncate_next(State::SelectAnime);
    assert_eq!(m.current_state(), State::SelectAnime);
    assert_eq!(m.previous_states, vec![State::SelectLanguage, State::SelectSource]);
}

#[test]
fn rewind_to_absent_target_is_a_no_op() {
    let mut m = StateMachine::default();
    m.set_state(State::SelectSource);
    m.set_state(State::SelectAnime);
    let stack = m.previous_states.clone();

    m.set_previous_state_and_truncate_next(State::SelectPlayer);
    assert_eq!(m.current_state(), State::SelectAnime);
    assert_eq!(m.previous_states, stack);
}

#[test]
fn machine_new_starts_with_empty_history() {
    let m = StateMachine::new(State::SelectEpisode, Data::default());
    assert_eq!(m.current_state(), State::SelectEpisode);
    assert_eq!(m.previous_states.len(), 0);
}

#[test]
fn data_slots_are_written_by_setters() {
    let mut d = Data::default();
    assert_eq!(d.language(), Language::All);
    assert!(d.source().is_none());
    assert!(d.player().is_none());

    d.set_language(Language::Russian);
    assert_eq!(d.language(), Language::Russian);

    d.set_source(Anilibria::new());
    assert!(d.source().is_some());
    assert!(d.source_mut().is_some());

    d.set_player(Player::Mpv);
    assert_eq!(d.player(), Some(Player::Mpv));
}

#[test]
fn data_new_fills_every_slot() {
    let d = Data::new(Language::Russian, Anilibria::new(), Player::Mpv);
    assert_eq!(d.language(), Language::Russian);
    assert!(d.source().is_some());
    assert_eq!(d.player(), Some(Player::Mpv));
}

#[test]
fn machine_data_is_reachable_through_the_accessor() {
    let mut m = StateMachine::default();
    m.data().set_language(Language::Russian);
    assert_eq!(m.data().language(), Language::Russian);
}
