use hit_it::game::{game_state, shortcut_command, Game, IntroFrame, MenuItem, Platform, SongId};
use hit_it::keyboard::{Key, KeyboardEvent};
use hit_it::audio::{PAUSE, LOAD, PLAY, SINK_1};

fn ev(key: Key, is_down: bool) -> KeyboardEvent {
    KeyboardEvent { key, is_down }
}

fn at_main_menu(platform: Platform) -> Game {
    let mut g = Game::new(platform);
    if platform == Platform::Web {
        g.web_wait_screen_loaded();
        g.input(ev(Key::Space, true));
    }
    g.boot_screen_loaded();
    g.resources_loaded();
    g.input(ev(Key::Other, true));
    assert_eq!(g.game_state, game_state::main_menu);
    g
}

#[test]
fn new_native_game_boots() {
    let g = Game::new(Platform::Native);
    assert_eq!(g.game_state, game_state::init_boot);
    assert_eq!(g.state(), game_state::init_boot);
    assert_eq!(g.main_menu_state(), MenuItem::Play);
    assert_eq!(g.song(), SongId::Karin);
    assert_eq!(g.current_song(), SongId::Karin);
    assert_eq!(g.arrows(), (false, false, false, false));
    assert_eq!(g.score(), 0);
    assert!(g.notes().is_empty());
    assert!(g.is_running());
}

#[test]
fn new_web_game_loads_first() {
    let g = Game::new(Platform::Web);
    assert_eq!(g.game_state, game_state::web_load);
    assert_eq!(g.platform(), Platform::Web);
}

#[test]
fn loading_screens_follow_each_other() {
    let mut g = Game::new(Platform::Web);
    g.web_wait_screen_loaded();
    assert_eq!(g.game_state, game_state::web_wait_start);
    g.input(ev(Key::Space, false));
    assert_eq!(g.game_state, game_state::web_wait_start);
    g.input(ev(Key::Space, true));
    assert_eq!(g.game_state, game_state::init_boot);
    g.boot_screen_loaded();
    assert_eq!(g.game_state, game_state::boot);
    g.resources_loaded();
    assert_eq!(g.game_state, game_state::splash_screen);
}

#[test]
fn update_passes_web_wait_natively_only() {
    // a native game never shows the waiting screen; were it there, the
    // update would pass it
    let mut g = Game::new(Platform::Native);
    g.game_state = game_state::web_wait_start;
    g.update();
    assert_eq!(g.game_state, game_state::init_boot);
    let mut w = Game::new(Platform::Web);
    w.web_wait_screen_loaded();
    w.update();
    assert_eq!(w.game_state, game_state::web_wait_start);
    let mut s = at_main_menu(Platform::Native);
    s.update();
    assert_eq!(s.game_state, game_state::main_menu);
}

#[test]
fn pointer_starts_waiting_game() {
    let mut g = Game::new(Platform::Web);
    g.web_wait_screen_loaded();
    g.pointer_pressed(false);
    assert_eq!(g.game_state, game_state::web_wait_start);
    g.pointer_pressed(true);
    assert_eq!(g.game_state, game_state::init_boot);
    g.pointer_pressed(true);
    assert_eq!(g.game_state, game_state::init_boot);
}

#[test]
fn splash_escape_leaves_native_game() {
    let mut g = Game::new(Platform::Native);
    g.boot_screen_loaded();
    g.resources_loaded();
    g.input(ev(Key::Escape, false));
    assert_eq!(g.game_state, game_state::splash_screen);
    g.input(ev(Key::Escape, true));
    assert_eq!(g.game_state, game_state::exit);
    assert!(!g.is_running());
}

#[test]
fn splash_escape_opens_web_menu() {
    let mut g = Game::new(Platform::Web);
    g.web_wait_screen_loaded();
    g.pointer_pressed(true);
    g.boot_screen_loaded();
    g.resources_loaded();
    g.input(ev(Key::Escape, true));
    assert_eq!(g.game_state, game_state::main_menu);
}

#[test]
fn native_menu_moves_wrap() {
    let mut g = at_main_menu(Platform::Native);
    g.input(ev(Key::Down, true));
    assert_eq!(g.main_menu_state(), MenuItem::Settings);
    g.input(ev(Key::S, true));
    assert_eq!(g.main_menu_state(), MenuItem::Exit);
    g.input(ev(Key::S, true));
    assert_eq!(g.main_menu_state(), MenuItem::Play);
    g.input(ev(Key::W, true));
    assert_eq!(g.main_menu_state(), MenuItem::Exit);
    g.input(ev(Key::Up, true));
    assert_eq!(g.main_menu_state(), MenuItem::Settings);
    g.input(ev(Key::Up, false));
    assert_eq!(g.main_menu_state(), MenuItem::Settings);
}

#[test]
fn native_menu_down_then_up_comes_back() {
    for start in 0..3 {
        let mut g = at_main_menu(Platform::Native);
        for _ in 0..start {
            g.input(ev(Key::Down, true));
        }
        let before = g.main_menu_state();
        g.input(ev(Key::Down, true));
        g.input(ev(Key::Up, true));
        assert_eq!(g.main_menu_state(), before);
        g.input(ev(Key::W, true));
        g.input(ev(Key::S, true));
        assert_eq!(g.main_menu_state(), before);
        g.input(ev(Key::S, true));
        g.input(ev(Key::S, true));
        g.input(ev(Key::S, true));
        assert_eq!(g.main_menu_state(), before);
        assert_eq!(g.game_state, game_state::main_menu);
    }
}

#[test]
fn web_menu_has_two_entries() {
    let mut g = at_main_menu(Platform::Web);
    g.input(ev(Key::Up, true));
    assert_eq!(g.main_menu_state(), MenuItem::Settings);
    g.input(ev(Key::Down, true));
    assert_eq!(g.main_menu_state(), MenuItem::Play);
    g.input(ev(Key::W, true));
    g.input(ev(Key::S, true));
    assert_eq!(g.main_menu_state(), MenuItem::Play);
}

#[test]
fn menu_choices() {
    let mut g = at_main_menu(Platform::Native);
    g.input(ev(Key::Down, true));
    g.input(ev(Key::Return, true));
    assert_eq!(g.game_state, game_state::main_menu);
    g.input(ev(Key::Down, true));
    g.input(ev(Key::Space, true));
    assert_eq!(g.game_state, game_state::exit);

    let mut h = at_main_menu(Platform::Native);
    h.input(ev(Key::Return, true));
    assert_eq!(h.game_state, game_state::song_select);

    let mut k = at_main_menu(Platform::Native);
    k.input(ev(Key::Escape, true));
    assert_eq!(k.game_state, game_state::splash_screen);
}

#[test]
fn song_select_toggles_and_confirms() {
    let mut g = at_main_menu(Platform::Native);
    g.input(ev(Key::Return, true));
    g.input(ev(Key::Down, true));
    assert_eq!(g.song(), SongId::Xepher);
    g.input(ev(Key::W, true));
    assert_eq!(g.song(), SongId::Karin);
    g.input(ev(Key::S, true));
    g.input(ev(Key::Up, true));
    assert_eq!(g.song(), SongId::Karin);
    g.input(ev(Key::Up, true));
    assert_eq!(g.current_song(), SongId::Karin);
    g.input(ev(Key::Return, true));
    assert_eq!(g.game_state, game_state::load_song);
    assert_eq!(g.current_song(), SongId::Xepher);
}

#[test]
fn song_select_escape_returns_to_menu() {
    let mut g = at_main_menu(Platform::Native);
    g.input(ev(Key::Return, true));
    g.input(ev(Key::Escape, true));
    assert_eq!(g.game_state, game_state::main_menu);
}

#[test]
fn menu_keys_keep_the_score() {
    let mut g = at_main_menu(Platform::Native);
    for k in [Key::D, Key::F, Key::J, Key::K, Key::Left, Key::Right] {
        g.input(ev(k, true));
        assert_eq!(g.score(), 0);
        assert_eq!(g.arrows(), (false, false, false, false));
    }
}

#[test]
fn load_song_sends_pause_and_load() {
    let mut g = at_main_menu(Platform::Native);
    g.input(ev(Key::Return, true));
    g.input(ev(Key::Down, true));
    g.input(ev(Key::Return, true));
    let cmds = g.load_song(b"1000,0\n2000,3").unwrap();
    assert_eq!(cmds, vec![(SINK_1, "xepher".to_string(), PAUSE), (SINK_1, "xepher.mp3".to_string(), LOAD)]);
    assert_eq!(g.game_state, game_state::song_game_screen_start);
    assert_eq!(g.notes(), &vec![(1000, 0), (2000, 3)]);
    assert_eq!(g.score(), 0);
}

#[test]
fn load_song_refuses_a_bad_chart() {
    let mut g = at_main_menu(Platform::Native);
    g.input(ev(Key::Return, true));
    g.input(ev(Key::Return, true));
    assert!(g.load_song(b"1000;0").is_none());
    assert_eq!(g.game_state, game_state::load_song);
    assert!(g.notes().is_empty());
}

#[test]
fn intro_counts_down_then_plays() {
    let mut g = at_main_menu(Platform::Native);
    g.input(ev(Key::Return, true));
    g.input(ev(Key::Return, true));
    g.load_song(b"5000,1").unwrap();
    g.start_song();
    assert_eq!(g.game_state, game_state::song_game_screen_intro);
    assert!(matches!(g.intro_at(0), IntroFrame::Three));
    assert!(matches!(g.intro_at(999), IntroFrame::Three));
    assert!(matches!(g.intro_at(1000), IntroFrame::Two));
    assert!(matches!(g.intro_at(2999), IntroFrame::One));
    assert_eq!(g.game_state, game_state::song_game_screen_intro);
    match g.intro_at(3000) {
        IntroFrame::Started(cmd) => assert_eq!(cmd, (SINK_1, "karin".to_string(), PLAY)),
        _ => panic!("the song should start"),
    }
    assert_eq!(g.game_state, game_state::song_game_screen_play);
}

#[test]
fn finish_song_releases_arrows() {
    let mut g = at_main_menu(Platform::Native);
    g.input(ev(Key::Return, true));
    g.input(ev(Key::Return, true));
    g.load_song(b"100000,1").unwrap();
    g.start_song();
    g.intro_at(5000);
    g.input_at(ev(Key::Left, true), 0);
    g.input_at(ev(Key::Up, true), 0);
    assert_eq!(g.arrows(), (true, false, true, false));
    g.expire_missed_at(200000);
    assert_eq!(g.game_state, game_state::song_finish);
    assert_eq!(g.arrows(), (true, false, true, false));
    g.finish_song();
    assert_eq!(g.arrows(), (false, false, false, false));
    assert_eq!(g.game_state, game_state::main_menu);
}

#[test]
fn shortcut_keys_play_songs() {
    assert_eq!(shortcut_command(ev(Key::Key0, true)), Some((SINK_1, "karin".to_string(), PLAY)));
    assert_eq!(shortcut_command(ev(Key::Key9, true)), Some((SINK_1, "xepher".to_string(), PLAY)));
    assert_eq!(shortcut_command(ev(Key::Key9, false)), None);
    assert_eq!(shortcut_command(ev(Key::D, true)), None);
}

#[test]
fn song_names_and_files() {
    assert_eq!(SongId::Karin.name(), "karin");
    assert_eq!(SongId::Xepher.name(), "xepher");
    assert_eq!(SongId::Karin.file(), "karin.mp3");
    assert_eq!(SongId::Xepher.file(), "xepher.mp3");
}

#[test]
fn keyboard_event_accessors() {
    let e = ev(Key::J, true);
    assert_eq!(e.key(), Key::J);
    assert!(e.is_down());
}

#[test]
fn menu_entries_per_platform() {
    let mut g = at_main_menu(Platform::Native);
    g.input(ev(Key::Down, true));
    assert_eq!(g.menu_entries(), vec![(MenuItem::Play, false), (MenuItem::Settings, true), (MenuItem::Exit, false)]);
    let w = at_main_menu(Platform::Web);
    assert_eq!(w.menu_entries(), vec![(MenuItem::Play, true), (MenuItem::Settings, false)]);
}
