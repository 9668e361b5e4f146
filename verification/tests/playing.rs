use hit_it::game::{game_state, Game, Platform};
use hit_it::keyboard::{Key, KeyboardEvent};
use hit_it::scoring::Judgement;
use hit_it::song::{DOWN, LEFT, RIGHT, UP};

fn ev(key: Key, is_down: bool) -> KeyboardEvent {
    KeyboardEvent { key, is_down }
}

fn playing(chart: &[u8]) -> Game {
    let mut g = Game::new(Platform::Native);
    g.boot_screen_loaded();
    g.resources_loaded();
    g.input(ev(Key::Other, true));
    g.input(ev(Key::Return, true));
    g.input(ev(Key::Return, true));
    g.load_song(chart).unwrap();
    g.start_song();
    g.intro_at(3000);
    assert_eq!(g.game_state, game_state::song_game_screen_play);
    g
}

#[test]
fn hit_on_time_gains_and_takes_the_note() {
    let mut g = playing(b"1000,0\n1500,1");
    g.input_at(ev(Key::D, true), 1100);
    assert_eq!(g.score(), 150);
    assert_eq!(g.notes(), &vec![(1500, 1)]);
    assert_eq!(g.arrows(), (true, false, false, false));
    g.input_at(ev(Key::D, false), 1150);
    assert_eq!(g.arrows(), (false, false, false, false));
    assert_eq!(g.score(), 150);
}

#[test]
fn every_arrow_key_plays_its_direction() {
    let keys = [(Key::Left, LEFT), (Key::D, LEFT), (Key::Down, DOWN), (Key::F, DOWN), (Key::Up, UP), (Key::J, UP), (Key::Right, RIGHT), (Key::K, RIGHT)];
    for (key, dir) in keys {
        let chart = format!("1000,{}", dir);
        let mut g = playing(chart.as_bytes());
        g.input_at(ev(key, true), 1000);
        assert_eq!(g.score(), 150);
        assert!(g.notes().is_empty());
    }
}

#[test]
fn early_press_costs() {
    let mut g = playing(b"1000,0");
    let j = g.press_at(LEFT, 500);
    assert_eq!(j, Judgement::Early);
    assert_eq!(g.score(), -300);
    assert_eq!(g.notes(), &vec![(1000, 0)]);
}

#[test]
fn press_with_no_note_left_costs() {
    let mut g = playing(b"");
    assert_eq!(g.press_at(UP, 10), Judgement::Empty);
    assert_eq!(g.score(), -300);
}

#[test]
fn passed_notes_cost_each() {
    let mut g = playing(b"100,0\n200,1\n900,2\n5000,3");
    // at 1000, notes due at or before 800 have passed
    assert_eq!(g.press_at(UP, 1000), Judgement::Hit);
    assert_eq!(g.score(), -600 + 150);
    assert_eq!(g.notes(), &vec![(5000, 3)]);
}

#[test]
fn wrong_direction_in_window_does_nothing() {
    let mut g = playing(b"1000,0");
    assert_eq!(g.press_at(RIGHT, 1000), Judgement::Unmatched);
    assert_eq!(g.score(), 0);
    assert_eq!(g.notes(), &vec![(1000, 0)]);
}

#[test]
fn note_at_window_edge_is_neither_early_nor_hit() {
    let mut g = playing(b"1200,0");
    assert_eq!(g.press_at(LEFT, 1000), Judgement::Unmatched);
    assert_eq!(g.score(), 0);
    assert_eq!(g.press_at(LEFT, 999), Judgement::Early);
    assert_eq!(g.score(), -300);
    assert_eq!(g.press_at(LEFT, 1001), Judgement::Hit);
    assert_eq!(g.score(), -150);
}

#[test]
fn note_at_lower_edge_has_passed() {
    let mut g = playing(b"800,0\n2000,0");
    assert_eq!(g.press_at(LEFT, 1000), Judgement::Early);
    assert_eq!(g.score(), -600);
    assert_eq!(g.notes(), &vec![(2000, 0)]);
}

#[test]
fn search_skips_other_directions_to_a_later_hit() {
    let mut g = playing(b"1000,1\n1050,0\n1100,2");
    assert_eq!(g.press_at(UP, 1000), Judgement::Hit);
    assert_eq!(g.notes(), &vec![(1000, 1), (1050, 0)]);
    assert_eq!(g.score(), 150);
}

#[test]
fn press_accounting_on_concrete_chart() {
    let mut g = playing(b"100,0\n200,0\n1000,2\n1100,2\n3000,1");
    let before = g.notes().len();
    let j = g.press_at(UP, 1000);
    assert_eq!(j, Judgement::Hit);
    let missed = 2;
    assert_eq!(g.notes().len() + missed + 1, before);
    assert_eq!(g.score(), -300 * missed as i32 + 150);
}

#[test]
fn press_keeps_chart_in_order() {
    let mut g = playing(b"500,0\n1000,1\n1010,1\n1020,0\n4000,2");
    g.press_at(LEFT, 1000);
    let notes = g.notes().clone();
    assert_eq!(notes, vec![(1000, 1), (1010, 1), (4000, 2)]);
    for w in notes.windows(2) {
        assert!(w[0].0 <= w[1].0);
    }
    for n in &notes {
        assert!(n.0 > 800);
    }
}

#[test]
fn expiring_notes_costs_and_finishes_song() {
    let mut g = playing(b"100,0\n200,1\n5000,2");
    g.expire_missed_at(1000);
    assert_eq!(g.score(), -600);
    assert_eq!(g.notes(), &vec![(5000, 2)]);
    assert_eq!(g.game_state, game_state::song_game_screen_play);
    g.expire_missed_at(6000);
    assert_eq!(g.score(), -900);
    assert!(g.notes().is_empty());
    assert_eq!(g.game_state, game_state::song_finish);
}

#[test]
fn clock_driven_calls_leave_state_consistent() {
    let mut g = playing(b"100000000,0");
    let (now, done) = g.expire_missed();
    assert!(done);
    assert!(now >= 0 && now < 100_000);
    assert_eq!(g.notes().len(), 1);
    let r = g.input(ev(Key::D, true));
    assert!(matches!(r, Some((_, true))));
    assert_eq!(g.arrows(), (true, false, false, false));
    assert_eq!(g.score(), -300);
    assert_eq!(g.input(ev(Key::D, false)), None);
    assert_eq!(g.input(ev(Key::Space, true)), None);
}

#[test]
fn expiring_twice_at_one_time_changes_nothing() {
    let mut g = playing(b"100,0
200,1
5000,2");
    g.expire_missed_at(1000);
    let score = g.score();
    let notes = g.notes().clone();
    g.expire_missed_at(1000);
    assert_eq!(g.score(), score);
    assert_eq!(g.notes(), &notes);
    assert_eq!(g.game_state, game_state::song_game_screen_play);
}

#[test]
fn chosen_song_is_the_one_played() {
    let mut g = Game::new(Platform::Native);
    g.boot_screen_loaded();
    g.resources_loaded();
    g.input(ev(Key::Other, true));
    g.input(ev(Key::Return, true));
    g.input(ev(Key::Down, true));
    g.input(ev(Key::Return, true));
    assert_eq!(g.song(), g.current_song());
    g.load_song(b"700,2").unwrap();
    assert_eq!(g.song(), g.current_song());
    g.start_song();
    g.intro_at(4000);
    assert_eq!(g.notes(), &vec![(700, 2)]);
    assert_eq!(g.press_at(UP, 700), Judgement::Hit);
    assert!(g.notes().is_empty());
    assert_eq!(g.song(), g.current_song());
}

#[test]
fn at_most_twenty_four_notes_are_drawn() {
    let chart: Vec<String> = (0..30).map(|i| format!("{},{}", 10000 + i * 100, i % 4)).collect();
    let g = playing(chart.join("\n").as_bytes());
    let v = g.visible_notes();
    assert_eq!(v.len(), 24);
    assert_eq!(v[0], (10000, 0));
    assert_eq!(v[23], (12300, 3));
    let small = playing(b"5000,1\n6000,2");
    assert_eq!(small.visible_notes(), vec![(5000, 1), (6000, 2)]);
}
