use vstd::prelude::*;
use crate::clock;
use crate::keyboard::{Key, KeyboardEvent};
use crate::audio::{command_is, SINK_1, PLAY, PAUSE, LOAD};
use crate::scoring::{self, Note, Judgement, notes_after_press, score_after_press, press_fits};
use crate::scoring::{live_notes, missed_count, expire_fits, MISS_PENALTY};
use crate::song::{Song, LEFT, DOWN, UP, RIGHT, chart_notes};

verus! {

/// The screens the game goes through.
#[derive(Clone, Copy, PartialEq, Eq, Structural, Debug)]
pub enum game_state {
    web_load,
    web_wait_start,
    init_boot,
    boot,
    splash_screen,
    main_menu,
    song_select,
    load_song,
    song_game_screen_start,
    song_game_screen_intro,
    song_game_screen_play,
    song_finish,
    exit,
}

/// The entries of the main menu.
#[derive(Clone, Copy, PartialEq, Eq, Structural, Debug)]
pub enum MenuItem {
    Play,
    Settings,
    Exit,
}

/// The songs that can be played.
#[derive(Clone, Copy, PartialEq, Eq, Structural, Debug)]
pub enum SongId {
    Karin,
    Xepher,
}

/// Where the game runs: natively, or in a browser (which has no exit entry
/// in its menu and must wait for the player before it makes any sound).
#[derive(Clone, Copy, PartialEq, Eq, Structural, Debug)]
pub enum Platform {
    Native,
    Web,
}

/// What the game's state is, as the contracts speak of it.
pub struct GameView {
    pub state: game_state,
    pub menu: MenuItem,
    pub song: SongId,
    pub current_song: SongId,
    pub left: bool,
    pub right: bool,
    pub up: bool,
    pub down: bool,
    pub karin: Seq<Note>,
    pub xepher: Seq<Note>,
    pub score: int,
    pub platform: Platform,
    /// The clock that presses are timed against.
    pub timer: instant::Instant,
}

impl GameView {
    /// The chart of song `s`.
    pub open spec fn notes(self, s: SongId) -> Seq<Note> {
        match s {
            SongId::Karin => self.karin,
            SongId::Xepher => self.xepher,
        }
    }

    /// The state with the chart of song `s` replaced by `n`.
    pub open spec fn with_notes(self, s: SongId, n: Seq<Note>) -> GameView {
        match s {
            SongId::Karin => GameView { karin: n, ..self },
            SongId::Xepher => GameView { xepher: n, ..self },
        }
    }

    /// The state on another screen.
    pub open spec fn to(self, s: game_state) -> GameView {
        GameView { state: s, ..self }
    }

    /// The same view on screen `s`, with the clock started again as `t`.
    pub open spec fn restarted(self, s: game_state, t: instant::Instant) -> GameView {
        GameView { state: s, timer: t, ..self }
    }
}

/// The entry below `m` in the native menu, wrapping round.
pub open spec fn menu_next(m: MenuItem) -> MenuItem {
    match m {
        MenuItem::Play => MenuItem::Settings,
        MenuItem::Settings => MenuItem::Exit,
        MenuItem::Exit => MenuItem::Play,
    }
}

/// The entry above `m` in the native menu, wrapping round.
pub open spec fn menu_prev(m: MenuItem) -> MenuItem {
    match m {
        MenuItem::Play => MenuItem::Exit,
        MenuItem::Settings => MenuItem::Play,
        MenuItem::Exit => MenuItem::Settings,
    }
}

/// The other entry of the two-entry menu of the browser.
pub open spec fn web_menu_toggle(m: MenuItem) -> MenuItem {
    match m {
        MenuItem::Play => MenuItem::Settings,
        MenuItem::Settings => MenuItem::Play,
        MenuItem::Exit => MenuItem::Exit,
    }
}

/// The other song.
pub open spec fn other_song(s: SongId) -> SongId {
    match s {
        SongId::Karin => SongId::Xepher,
        SongId::Xepher => SongId::Karin,
    }
}

/// S or Down: move down in a menu.
pub open spec fn is_nav_down(k: Key) -> bool {
    k == Key::S || k == Key::Down
}

/// W or Up: move up in a menu.
pub open spec fn is_nav_up(k: Key) -> bool {
    k == Key::W || k == Key::Up
}

/// Return or Space: choose in a menu.
pub open spec fn is_confirm(k: Key) -> bool {
    k == Key::Return || k == Key::Space
}

/// The note direction that a key plays, if any.
pub open spec fn arrow_of(k: Key) -> Option<i32> {
    if k == Key::D || k == Key::Left {
        Some(LEFT)
    } else if k == Key::F || k == Key::Down {
        Some(DOWN)
    } else if k == Key::J || k == Key::Up {
        Some(UP)
    } else if k == Key::K || k == Key::Right {
        Some(RIGHT)
    } else {
        None
    }
}

/// The state with the arrow of direction `dir` shown as held or released.
pub open spec fn set_arrow(v: GameView, dir: i32, held: bool) -> GameView {
    if dir == LEFT {
        GameView { left: held, ..v }
    } else if dir == DOWN {
        GameView { down: held, ..v }
    } else if dir == UP {
        GameView { up: held, ..v }
    } else {
        GameView { right: held, ..v }
    }
}

/// A key on the screen that waits for the player in the browser.
pub open spec fn web_wait_start_input(v: GameView, e: KeyboardEvent) -> GameView {
    if e.is_down {
        v.to(game_state::init_boot)
    } else {
        v
    }
}

/// A key on the splash screen: any key goes to the main menu, except Escape,
/// which leaves the native game.
pub open spec fn splash_screen_input(v: GameView, e: KeyboardEvent) -> GameView {
    if e.is_down {
        if v.platform == Platform::Native && e.key == Key::Escape {
            v.to(game_state::exit)
        } else {
            v.to(game_state::main_menu)
        }
    } else {
        v
    }
}

/// A key in the main menu.
pub open spec fn main_menu_input(v: GameView, e: KeyboardEvent) -> GameView {
    if e.key == Key::Escape && e.is_down {
        v.to(game_state::splash_screen)
    } else if v.platform == Platform::Native {
        if is_nav_down(e.key) && e.is_down {
            GameView { menu: menu_next(v.menu), ..v }
        } else if is_nav_up(e.key) && e.is_down {
            GameView { menu: menu_prev(v.menu), ..v }
        } else if is_confirm(e.key) && e.is_down {
            match v.menu {
                MenuItem::Play => v.to(game_state::song_select),
                MenuItem::Settings => v,
                MenuItem::Exit => v.to(game_state::exit),
            }
        } else {
            v
        }
    } else {
        if (is_nav_down(e.key) || is_nav_up(e.key)) && e.is_down {
            GameView { menu: web_menu_toggle(v.menu), ..v }
        } else if is_confirm(e.key) && e.is_down {
            match v.menu {
                MenuItem::Play => v.to(game_state::song_select),
                _ => v,
            }
        } else {
            v
        }
    }
}

/// A key on the song selection screen.
pub open spec fn song_select_input(v: GameView, e: KeyboardEvent) -> GameView {
    if e.key == Key::Escape && e.is_down {
        v.to(game_state::main_menu)
    } else if (is_nav_down(e.key) || is_nav_up(e.key)) && e.is_down {
        GameView { song: other_song(v.song), ..v }
    } else if is_confirm(e.key) && e.is_down {
        GameView { state: game_state::load_song, current_song: v.song, ..v }
    } else {
        v
    }
}

/// The state after a press of `dir` at `now` is scored against the chart of
/// the song being played.
pub open spec fn pressed_at(v: GameView, dir: i32, now: int) -> GameView {
    let notes = v.notes(v.current_song);
    GameView {
        score: score_after_press(notes, v.score, dir, now),
        ..v.with_notes(v.current_song, notes_after_press(notes, dir, now))
    }
}

/// A key while a song is played, at time `now` from the start of the song.
pub open spec fn play_input(v: GameView, e: KeyboardEvent, now: int) -> GameView {
    match arrow_of(e.key) {
        Some(dir) => if e.is_down {
            pressed_at(set_arrow(v, dir, true), dir, now)
        } else {
            set_arrow(v, dir, false)
        },
        None => v,
    }
}

/// A key, on whatever screen the game shows; `now` is the time from the start
/// of the song, which matters only while a song is played.
pub open spec fn input_spec(v: GameView, e: KeyboardEvent, now: int) -> GameView {
    match v.state {
        game_state::web_wait_start => web_wait_start_input(v, e),
        game_state::splash_screen => splash_screen_input(v, e),
        game_state::main_menu => main_menu_input(v, e),
        game_state::song_select => song_select_input(v, e),
        game_state::song_game_screen_play => play_input(v, e, now),
        _ => v,
    }
}

/// The key `e` at time `now` computes nothing outside `i32`.
pub open spec fn input_fits(v: GameView, e: KeyboardEvent, now: int) -> bool {
    v.state == game_state::song_game_screen_play && e.is_down && arrow_of(e.key) is Some
        ==> press_fits(v.notes(v.current_song), v.score, arrow_of(e.key)->0, now)
}

/// The state of the game.
pub struct Game {
    pub game_state: game_state,
    main_menu_state: MenuItem,
    song: SongId,
    timer: clock::Clock,
    left: bool,
    right: bool,
    up: bool,
    down: bool,
    karin: Song,
    xepher: Song,
    score: i32,
    current_song: SongId,
    platform: Platform,
}

impl View for Game {
    type V = GameView;

    closed spec fn view(&self) -> GameView {
        GameView {
            state: self.game_state,
            menu: self.main_menu_state,
            song: self.song,
            current_song: self.current_song,
            left: self.left,
            right: self.right,
            up: self.up,
            down: self.down,
            karin: self.karin.keys@,
            xepher: self.xepher.keys@,
            score: self.score as int,
            platform: self.platform,
            timer: self.timer.started(),
        }
    }
}

/// The state in which a game starts, with its clock started as `timer`.
pub open spec fn initial_view(platform: Platform, timer: instant::Instant) -> GameView {
    GameView {
        state: match platform {
            Platform::Native => game_state::init_boot,
            Platform::Web => game_state::web_load,
        },
        menu: MenuItem::Play,
        song: SongId::Karin,
        current_song: SongId::Karin,
        left: false,
        right: false,
        up: false,
        down: false,
        karin: Seq::empty(),
        xepher: Seq::empty(),
        score: 0,
        platform,
        timer,
    }
}

impl Game {
    /// The milliseconds read from the game's clock since it last started,
    /// oldest first.
    pub closed spec fn clock_readings(&self) -> Seq<u128> {
        self.timer.readings()
    }

    /// A new game: on its first screen, with the first menu entry and the
    /// first song chosen, both charts empty and no score.
    pub fn new(platform: Platform) -> (g: Game)
        ensures
            g@ == initial_view(platform, g@.timer),
            g.clock_readings() == Seq::<u128>::empty(),
    {
        let state = match platform {
            Platform::Native => game_state::init_boot,
            Platform::Web => game_state::web_load,
        };
        Game {
            game_state: state,
            main_menu_state: MenuItem::Play,
            song: SongId::Karin,
            timer: clock::start_clock(),
            left: false,
            right: false,
            up: false,
            down: false,
            karin: Song::new(),
            xepher: Song::new(),
            score: 0,
            current_song: SongId::Karin,
            platform,
        }
    }

    /// A key on the screen that waits for the player in the browser.
    pub fn input_web_wait_start(&mut self, key: KeyboardEvent)
        ensures
            final(self)@ == web_wait_start_input(old(self)@, key),
            final(self).clock_readings() == old(self).clock_readings(),
    {
        if key.is_down {
            self.game_state = game_state::init_boot;
        }
    }

    /// A key on the splash screen.
    pub fn input_splash_screen(&mut self, key: KeyboardEvent)
        ensures
            final(self)@ == splash_screen_input(old(self)@, key),
            final(self).clock_readings() == old(self).clock_readings(),
    {
        if key.is_down {
            self.game_state = game_state::main_menu;
        }
        if self.platform == Platform::Native && key.key == Key::Escape && key.is_down {
            self.game_state = game_state::exit;
        }
    }

    /// A key in the main menu.
    pub fn input_main_menu(&mut self, key: KeyboardEvent)
        ensures
            final(self)@ == main_menu_input(old(self)@, key),
            !key.is_down ==> final(self)@ == old(self)@,
            final(self).clock_readings() == old(self).clock_readings(),
    {
        let k = key.key;
        if k == Key::Escape && key.is_down {
            self.game_state = game_state::splash_screen;
        } else if self.platform == Platform::Native {
            if (k == Key::S || k == Key::Down) && key.is_down {
                self.main_menu_state = match self.main_menu_state {
                    MenuItem::Play => MenuItem::Settings,
                    MenuItem::Settings => MenuItem::Exit,
                    MenuItem::Exit => MenuItem::Play,
                };
            } else if (k == Key::W || k == Key::Up) && key.is_down {
                self.main_menu_state = match self.main_menu_state {
                    MenuItem::Play => MenuItem::Exit,
                    MenuItem::Settings => MenuItem::Play,
                    MenuItem::Exit => MenuItem::Settings,
                };
            } else if (k == Key::Return || k == Key::Space) && key.is_down {
                match self.main_menu_state {
                    MenuItem::Play => {
                        self.game_state = game_state::song_select;
                    },
                    MenuItem::Settings => {},
                    MenuItem::Exit => {
                        self.game_state = game_state::exit;
                    },
                }
            }
        } else {
            if (k == Key::S || k == Key::Down || k == Key::W || k == Key::Up) && key.is_down {
                match self.main_menu_state {
                    MenuItem::Play => {
                        self.main_menu_state = MenuItem::Settings;
                    },
                    MenuItem::Settings => {
                        self.main_menu_state = MenuItem::Play;
                    },
                    MenuItem::Exit => {},
                }
            } else if (k == Key::Return || k == Key::Space) && key.is_down {
                match self.main_menu_state {
                    MenuItem::Play => {
                        self.game_state = game_state::song_select;
                    },
                    _ => {},
                }
            }
        }
    }

    /// A key on the song selection screen.
    pub fn input_song_select(&mut self, key: KeyboardEvent)
        ensures
            final(self)@ == song_select_input(old(self)@, key),
            !key.is_down ==> final(self)@ == old(self)@,
            final(self).clock_readings() == old(self).clock_readings(),
    {
        let k = key.key;
        if k == Key::Escape && key.is_down {
            self.game_state = game_state::main_menu;
        } else if (k == Key::S || k == Key::Down || k == Key::W || k == Key::Up) && key.is_down {
            self.song = match self.song {
                SongId::Karin => SongId::Xepher,
                SongId::Xepher => SongId::Karin,
            };
        } else if (k == Key::Return || k == Key::Space) && key.is_down {
            self.game_state = game_state::load_song;
            self.current_song = self.song;
        }
    }
}

/// The note direction that a key plays, if any.
pub fn arrow(k: Key) -> (r: Option<i32>)
    ensures
        r == arrow_of(k),
{
    if k == Key::D || k == Key::Left {
        Some(LEFT)
    } else if k == Key::F || k == Key::Down {
        Some(DOWN)
    } else if k == Key::J || k == Key::Up {
        Some(UP)
    } else if k == Key::K || k == Key::Right {
        Some(RIGHT)
    } else {
        None
    }
}

impl Game {
    fn set_arrow_flag(&mut self, dir: i32, held: bool)
        ensures
            final(self)@ == set_arrow(old(self)@, dir, held),
            final(self).clock_readings() == old(self).clock_readings(),
    {
        if dir == LEFT {
            self.left = held;
        } else if dir == DOWN {
            self.down = held;
        } else if dir == UP {
            self.up = held;
        } else {
            self.right = held;
        }
    }

    fn current_len(&self) -> (n: usize)
        ensures
            n == self@.notes(self@.current_song).len(),
    {
        match self.current_song {
            SongId::Karin => self.karin.keys.len(),
            SongId::Xepher => self.xepher.keys.len(),
        }
    }

    /// Whether a press of `dir` at `now` against the chart of the song being
    /// played computes nothing outside `i32`.
    fn press_fits_now(&self, dir: i32, now: i32) -> (ok: bool)
        ensures
            ok == press_fits(self@.notes(self@.current_song), self@.score, dir, now as int),
    {
        match self.current_song {
            SongId::Karin => scoring::press_fits_exec(&self.karin.keys, self.score, dir, now),
            SongId::Xepher => scoring::press_fits_exec(&self.xepher.keys, self.score, dir, now),
        }
    }

    /// Whether taking out the passed notes of the song being played at `now`
    /// computes nothing outside `i32`.
    fn expire_fits_now(&self, now: i32) -> (ok: bool)
        ensures
            ok == expire_fits(self@.notes(self@.current_song), self@.score, now as int),
    {
        match self.current_song {
            SongId::Karin => scoring::expire_fits_exec(&self.karin.keys, self.score, now),
            SongId::Xepher => scoring::expire_fits_exec(&self.xepher.keys, self.score, now),
        }
    }

    /// Scores a press of `dir` at `now` (milliseconds from the start of the
    /// song) against the chart of the song being played.
    pub fn press_at(&mut self, dir: i32, now: i32) -> (j: Judgement)
        requires
            press_fits(old(self)@.notes(old(self)@.current_song), old(self)@.score, dir, now as int),
        ensures
            j == scoring::judge(old(self)@.notes(old(self)@.current_song), dir, now as int),
            final(self)@ == pressed_at(old(self)@, dir, now as int),
            final(self).clock_readings() == old(self).clock_readings(),
    {
        match self.current_song {
            SongId::Karin => scoring::press(&mut self.karin.keys, &mut self.score, dir, now),
            SongId::Xepher => scoring::press(&mut self.xepher.keys, &mut self.score, dir, now),
        }
    }

    /// Reads the time since the song started and scores a press of `dir` at
    /// it. Returns that time, and whether the press was scored: it is
    /// wherever the press computes nothing outside `i32`; elsewhere nothing
    /// changes.
    fn calulate_song_game_screen_play(&mut self, dir: i32) -> (r: (i32, bool))
        ensures
            r.1 == press_fits(old(self)@.notes(old(self)@.current_song), old(self)@.score, dir, r.0 as int),
            r.1 ==> final(self)@ == pressed_at(old(self)@, dir, r.0 as int),
            !r.1 ==> final(self)@ == old(self)@,
            final(self).clock_readings() == old(self).clock_readings().push(final(self).clock_readings().last()),
            r.0 == final(self).clock_readings().last() as i32,
    {
        let ms = clock::read_millis(&mut self.timer);
        let now: i32 = #[verifier::truncate] (ms as i32);
        if self.press_fits_now(dir, now) {
            self.press_at(dir, now);
            (now, true)
        } else {
            (now, false)
        }
    }

    /// A key while a song is played, at `now` milliseconds from its start.
    fn input_song_game_screen_play_at(&mut self, key: KeyboardEvent, now: i32)
        requires
            key.is_down && arrow_of(key.key) is Some ==>
                press_fits(old(self)@.notes(old(self)@.current_song), old(self)@.score, arrow_of(key.key)->0, now as int),
        ensures
            final(self)@ == play_input(old(self)@, key, now as int),
    {
        match arrow(key.key) {
            Some(dir) => {
                if key.is_down {
                    self.set_arrow_flag(dir, true);
                    self.press_at(dir, now);
                } else {
                    self.set_arrow_flag(dir, false);
                }
            },
            None => {},
        }
    }

    /// A key while a song is played, at the time read from the game's timer.
    /// Where an arrow goes down, returns the time read and whether the press
    /// was scored (it is wherever the press computes nothing outside `i32`;
    /// elsewhere the arrow is only shown as held); otherwise returns `None`.
    pub fn input_song_game_screen_play(&mut self, key: KeyboardEvent) -> (r: Option<(i32, bool)>)
        ensures
            r is None <==> !(key.is_down && arrow_of(key.key) is Some),
            r is None ==> final(self)@ == play_input(old(self)@, key, 0),
            r matches Some((t, scored)) ==> {
                &&& scored == press_fits(old(self)@.notes(old(self)@.current_song), old(self)@.score, arrow_of(key.key)->0, t as int)
                &&& scored ==> final(self)@ == play_input(old(self)@, key, t as int)
                &&& !scored ==> final(self)@ == set_arrow(old(self)@, arrow_of(key.key)->0, true)
            },
            r is None ==> final(self).clock_readings() == old(self).clock_readings(),
            r matches Some((t, _)) ==> {
                &&& final(self).clock_readings() == old(self).clock_readings().push(final(self).clock_readings().last())
                &&& t == final(self).clock_readings().last() as i32
            },
    {
        match arrow(key.key) {
            Some(dir) => {
                if key.is_down {
                    self.set_arrow_flag(dir, true);
                    Some(self.calulate_song_game_screen_play(dir))
                } else {
                    self.set_arrow_flag(dir, false);
                    None
                }
            },
            None => None,
        }
    }

    /// A key at `now` milliseconds from the start of the song being played
    /// (the time matters only while a song is played).
    pub fn input_at(&mut self, key: KeyboardEvent, now: i32)
        requires
            input_fits(old(self)@, key, now as int),
        ensures
            final(self)@ == input_spec(old(self)@, key, now as int),
    {
        match self.game_state {
            game_state::web_wait_start => self.input_web_wait_start(key),
            game_state::splash_screen => self.input_splash_screen(key),
            game_state::main_menu => self.input_main_menu(key),
            game_state::song_select => self.input_song_select(key),
            game_state::song_game_screen_play => self.input_song_game_screen_play_at(key, now),
            game_state::song_finish => {},
            _ => {},
        }
    }

    /// A key, on whatever screen the game shows. While a song is played and
    /// an arrow goes down, the time since the song started is read from the
    /// game's timer; then the time read is returned with whether the press
    /// was scored (it is wherever the press computes nothing outside `i32`;
    /// elsewhere the arrow is only shown as held). For any other key, returns
    /// `None`.
    pub fn input(&mut self, key: KeyboardEvent) -> (r: Option<(i32, bool)>)
        ensures
            r is None <==> !(old(self)@.state == game_state::song_game_screen_play && key.is_down
                && arrow_of(key.key) is Some),
            r is None ==> final(self)@ == input_spec(old(self)@, key, 0),
            r matches Some((t, scored)) ==> {
                &&& scored == press_fits(old(self)@.notes(old(self)@.current_song), old(self)@.score, arrow_of(key.key)->0, t as int)
                &&& scored ==> final(self)@ == input_spec(old(self)@, key, t as int)
                &&& !scored ==> final(self)@ == set_arrow(old(self)@, arrow_of(key.key)->0, true)
            },
            r is None ==> final(self).clock_readings() == old(self).clock_readings(),
            r matches Some((t, _)) ==> {
                &&& final(self).clock_readings() == old(self).clock_readings().push(final(self).clock_readings().last())
                &&& t == final(self).clock_readings().last() as i32
            },
    {
        match self.game_state {
            game_state::web_wait_start => {
                self.input_web_wait_start(key);
                None
            },
            game_state::splash_screen => {
                self.input_splash_screen(key);
                None
            },
            game_state::main_menu => {
                self.input_main_menu(key);
                None
            },
            game_state::song_select => {
                self.input_song_select(key);
                None
            },
            game_state::song_game_screen_play => self.input_song_game_screen_play(key),
            game_state::song_finish => None,
            _ => None,
        }
    }
}

/// The name of a song: that of its audio element, and of its chart.
pub open spec fn song_name(s: SongId) -> Seq<char> {
    match s {
        SongId::Karin => "karin"@,
        SongId::Xepher => "xepher"@,
    }
}

/// The audio file of a song.
pub open spec fn song_file(s: SongId) -> Seq<char> {
    match s {
        SongId::Karin => "karin.mp3"@,
        SongId::Xepher => "xepher.mp3"@,
    }
}

impl SongId {
    /// The name of the song.
    pub fn name(&self) -> (n: String)
        ensures
            n@ == song_name(*self),
    {
        match self {
            SongId::Karin => "karin".to_owned(),
            SongId::Xepher => "xepher".to_owned(),
        }
    }

    /// The audio file of the song.
    pub fn file(&self) -> (n: String)
        ensures
            n@ == song_file(*self),
    {
        match self {
            SongId::Karin => "karin.mp3".to_owned(),
            SongId::Xepher => "xepher.mp3".to_owned(),
        }
    }
}

/// What a frame of the count-down before a song shows.
pub enum IntroFrame {
    /// Less than a second has passed.
    Three,
    /// Less than two seconds have passed.
    Two,
    /// Less than three seconds have passed.
    One,
    /// The song starts; the command plays it.
    Started((i32, String, i32)),
}

/// The state once the chosen song is loaded with the chart `notes`: the
/// score is back to 0 and the song is ready to start.
pub open spec fn loaded_view(v: GameView, notes: Seq<Note>) -> GameView {
    GameView { score: 0, state: game_state::song_game_screen_start, ..v.with_notes(v.song, notes) }
}

/// The state once the song is over: the arrows are released and the main
/// menu shows.
pub open spec fn finished_view(v: GameView) -> GameView {
    GameView { left: false, right: false, up: false, down: false, state: game_state::main_menu, ..v }
}

/// The state after the periodic update.
pub open spec fn update_spec(v: GameView) -> GameView {
    if v.state == game_state::web_wait_start && v.platform == Platform::Native {
        v.to(game_state::init_boot)
    } else {
        v
    }
}

/// The state after the passed notes of the song being played are taken out
/// at `now`, each at `MISS_PENALTY`; once no note is left the song is over.
pub open spec fn expired_at(v: GameView, now: int) -> GameView {
    let notes = v.notes(v.current_song);
    let w = GameView {
        score: v.score - MISS_PENALTY * missed_count(notes, now),
        ..v.with_notes(v.current_song, live_notes(notes, now))
    };
    if live_notes(notes, now).len() < 1 {
        w.to(game_state::song_finish)
    } else {
        w
    }
}

impl Game {
    /// The periodic update: natively, the screen that waits for the player in
    /// the browser is passed at once.
    pub fn update(&mut self)
        ensures
            final(self)@ == update_spec(old(self)@),
    {
        match self.game_state {
            game_state::web_wait_start => {
                if self.platform == Platform::Native {
                    self.game_state = game_state::init_boot;
                }
            },
            _ => {},
        }
    }

    /// A pointer button went down: the left one, on the screen that waits for
    /// the player, starts the game.
    pub fn pointer_pressed(&mut self, left_button: bool)
        ensures
            final(self)@ == if left_button && old(self)@.state == game_state::web_wait_start {
                old(self)@.to(game_state::init_boot)
            } else {
                old(self)@
            },
    {
        if left_button {
            match self.game_state {
                game_state::web_wait_start => {
                    self.game_state = game_state::init_boot;
                },
                _ => {},
            }
        }
    }

    /// The picture of the waiting screen is loaded and shown: wait for the
    /// player.
    pub fn web_wait_screen_loaded(&mut self)
        requires
            old(self)@.state == game_state::web_load,
        ensures
            final(self)@ == old(self)@.to(game_state::web_wait_start),
    {
        self.game_state = game_state::web_wait_start;
    }

    /// The picture of the boot screen is loaded and shown: load the rest.
    pub fn boot_screen_loaded(&mut self)
        requires
            old(self)@.state == game_state::init_boot,
        ensures
            final(self)@ == old(self)@.to(game_state::boot),
    {
        self.game_state = game_state::boot;
    }

    /// All pictures are loaded: show the splash screen.
    pub fn resources_loaded(&mut self)
        requires
            old(self)@.state == game_state::boot,
        ensures
            final(self)@ == old(self)@.to(game_state::splash_screen),
    {
        self.game_state = game_state::splash_screen;
    }

    /// Loads the chosen song: its chart is replaced by the notes of the chart
    /// file `chart`, the score goes back to 0, and the song is ready to start.
    /// Returns the audio commands that pause the song's element and queue its
    /// file. Where `chart` is not a chart, returns `None` and changes nothing.
    pub fn load_song(&mut self, chart: &[u8]) -> (cmds: Option<Vec<(i32, String, i32)>>)
        requires
            old(self)@.state == game_state::load_song,
        ensures
            chart_notes(chart@) is None ==> cmds is None && final(self)@ == old(self)@,
            chart_notes(chart@) matches Some(notes) ==> {
                &&& (cmds matches Some(c) && c@.len() == 2
                    && command_is(c@[0], SINK_1, song_name(old(self)@.song), PAUSE)
                    && command_is(c@[1], SINK_1, song_file(old(self)@.song), LOAD))
                &&& final(self)@ == loaded_view(old(self)@, notes)
            },
            cmds is Some ==> final(self)@.score == 0 && final(self)@.state == game_state::song_game_screen_start,
    {
        let ok = match self.song {
            SongId::Karin => self.karin.reload(chart),
            SongId::Xepher => self.xepher.reload(chart),
        };
        if !ok {
            return None;
        }
        let mut cmds: Vec<(i32, String, i32)> = Vec::new();
        cmds.push((SINK_1, self.song.name(), PAUSE));
        cmds.push((SINK_1, self.song.file(), LOAD));
        self.score = 0;
        self.game_state = game_state::song_game_screen_start;
        Some(cmds)
    }

    /// Starts the count-down before the song: the timer starts from 0.
    pub fn start_song(&mut self)
        requires
            old(self)@.state == game_state::song_game_screen_start,
        ensures
            final(self)@ == old(self)@.restarted(game_state::song_game_screen_intro, final(self)@.timer),
            final(self).clock_readings() == Seq::<u128>::empty(),
    {
        self.game_state = game_state::song_game_screen_intro;
        self.timer = clock::start_clock();
    }

    /// The count-down `elapsed` milliseconds after it started: three, two,
    /// one, then the song plays, the timer starts again from 0 and the game
    /// is played.
    pub fn intro_at(&mut self, elapsed: u128) -> (f: IntroFrame)
        requires
            old(self)@.state == game_state::song_game_screen_intro,
        ensures
            elapsed < 1000 ==> f is Three && final(self)@ == old(self)@,
            1000 <= elapsed < 2000 ==> f is Two && final(self)@ == old(self)@,
            2000 <= elapsed < 3000 ==> f is One && final(self)@ == old(self)@,
            3000 <= elapsed ==> (f matches IntroFrame::Started(c) && command_is(
                c,
                SINK_1,
                song_name(old(self)@.song),
                PLAY,
            ) && final(self)@ == old(self)@.restarted(game_state::song_game_screen_play, final(self)@.timer)),
            elapsed < 3000 ==> final(self).clock_readings() == old(self).clock_readings(),
            3000 <= elapsed ==> final(self).clock_readings() == Seq::<u128>::empty(),
    {
        if elapsed < 1000 {
            IntroFrame::Three
        } else if elapsed < 2000 {
            IntroFrame::Two
        } else if elapsed < 3000 {
            IntroFrame::One
        } else {
            let cmd = (SINK_1, self.song.name(), PLAY);
            self.game_state = game_state::song_game_screen_play;
            self.timer = clock::start_clock();
            IntroFrame::Started(cmd)
        }
    }

    /// The count-down, at the time read from the game's timer: returns that
    /// time and the frame that `intro_at` gives for it.
    pub fn intro(&mut self) -> (r: (u128, IntroFrame))
        requires
            old(self)@.state == game_state::song_game_screen_intro,
        ensures
            r.0 < 1000 ==> r.1 is Three && final(self)@ == old(self)@,
            1000 <= r.0 < 2000 ==> r.1 is Two && final(self)@ == old(self)@,
            2000 <= r.0 < 3000 ==> r.1 is One && final(self)@ == old(self)@,
            3000 <= r.0 ==> (r.1 matches IntroFrame::Started(c) && command_is(
                c,
                SINK_1,
                song_name(old(self)@.song),
                PLAY,
            ) && final(self)@ == old(self)@.restarted(game_state::song_game_screen_play, final(self)@.timer)),
            r.0 < 3000 ==> final(self).clock_readings() == old(self).clock_readings().push(r.0),
            3000 <= r.0 ==> final(self).clock_readings() == Seq::<u128>::empty(),
    {
        let ms = clock::read_millis(&mut self.timer);
        let f = self.intro_at(ms);
        (ms, f)
    }

    /// Takes out the notes of the song being played that have passed at
    /// `now` (milliseconds from its start), at `MISS_PENALTY` each; once no
    /// note is left, the song is over.
    pub fn expire_missed_at(&mut self, now: i32)
        requires
            old(self)@.state == game_state::song_game_screen_play,
            expire_fits(old(self)@.notes(old(self)@.current_song), old(self)@.score, now as int),
        ensures
            final(self)@ == expired_at(old(self)@, now as int),
            final(self).clock_readings() == old(self).clock_readings(),
    {
        match self.current_song {
            SongId::Karin => scoring::expire(&mut self.karin.keys, &mut self.score, now),
            SongId::Xepher => scoring::expire(&mut self.xepher.keys, &mut self.score, now),
        }
        if self.current_len() < 1 {
            self.game_state = game_state::song_finish;
        }
    }

    /// Takes out the passed notes at the time read from the game's timer.
    /// Returns that time, and whether the notes were taken out: they are
    /// wherever that computes nothing outside `i32`; elsewhere nothing
    /// changes.
    pub fn expire_missed(&mut self) -> (r: (i32, bool))
        requires
            old(self)@.state == game_state::song_game_screen_play,
        ensures
            r.1 == expire_fits(old(self)@.notes(old(self)@.current_song), old(self)@.score, r.0 as int),
            r.1 ==> final(self)@ == expired_at(old(self)@, r.0 as int),
            !r.1 ==> final(self)@ == old(self)@,
            final(self).clock_readings() == old(self).clock_readings().push(final(self).clock_readings().last()),
            r.0 == final(self).clock_readings().last() as i32,
    {
        let ms = clock::read_millis(&mut self.timer);
        let now: i32 = #[verifier::truncate] (ms as i32);
        if self.expire_fits_now(now) {
            self.expire_missed_at(now);
            (now, true)
        } else {
            (now, false)
        }
    }

    /// The song is over: the arrows are released and the main menu shows.
    pub fn finish_song(&mut self)
        requires
            old(self)@.state == game_state::song_finish,
        ensures
            final(self)@ == finished_view(old(self)@),
    {
        self.left = false;
        self.right = false;
        self.up = false;
        self.down = false;
        self.game_state = game_state::main_menu;
    }
}

/// How many notes of a chart are drawn at most.
pub const MAX_TO_RENDER: usize = 24;

/// The audio command that a debug key sends: 0 plays karin, 9 plays xepher.
pub fn shortcut_command(key: KeyboardEvent) -> (c: Option<(i32, String, i32)>)
    ensures
        key.key == Key::Key0 && key.is_down ==> (c matches Some(cmd) && command_is(cmd, SINK_1, song_name(SongId::Karin), PLAY)),
        key.key == Key::Key9 && key.is_down ==> (c matches Some(cmd) && command_is(cmd, SINK_1, song_name(SongId::Xepher), PLAY)),
        !((key.key == Key::Key0 || key.key == Key::Key9) && key.is_down) ==> c is None,
{
    if key.key == Key::Key0 && key.is_down {
        Some((SINK_1, SongId::Karin.name(), PLAY))
    } else if key.key == Key::Key9 && key.is_down {
        Some((SINK_1, SongId::Xepher.name(), PLAY))
    } else {
        None
    }
}

impl Game {
    /// Whether the game goes on (it stops once the exit screen is reached).
    pub fn is_running(&self) -> (r: bool)
        ensures
            r == (self@.state != game_state::exit),
    {
        self.game_state != game_state::exit
    }

    /// The screen the game shows.
    pub fn state(&self) -> (s: game_state)
        ensures
            s == self@.state,
    {
        self.game_state
    }

    /// The entry chosen in the main menu.
    pub fn main_menu_state(&self) -> (m: MenuItem)
        ensures
            m == self@.menu,
    {
        self.main_menu_state
    }

    /// The song chosen on the song selection screen.
    pub fn song(&self) -> (s: SongId)
        ensures
            s == self@.song,
    {
        self.song
    }

    /// The song being played.
    pub fn current_song(&self) -> (s: SongId)
        ensures
            s == self@.current_song,
    {
        self.current_song
    }

    /// Which arrows are held: left, down, up, right.
    pub fn arrows(&self) -> (a: (bool, bool, bool, bool))
        ensures
            a == (self@.left, self@.down, self@.up, self@.right),
    {
        (self.left, self.down, self.up, self.right)
    }

    /// The notes left in the chart of the song being played.
    pub fn notes(&self) -> (n: &Vec<Note>)
        ensures
            n@ == self@.notes(self@.current_song),
    {
        match self.current_song {
            SongId::Karin => &self.karin.keys,
            SongId::Xepher => &self.xepher.keys,
        }
    }

    /// The score.
    pub fn score(&self) -> (s: i32)
        ensures
            s == self@.score,
    {
        self.score
    }

    /// The entries that the main menu shows, top to bottom, each with whether
    /// it is the chosen one; the browser's menu has no exit entry.
    pub fn menu_entries(&self) -> (m: Vec<(MenuItem, bool)>)
        ensures
            self@.platform == Platform::Native ==> m@ == seq![
                (MenuItem::Play, self@.menu == MenuItem::Play),
                (MenuItem::Settings, self@.menu == MenuItem::Settings),
                (MenuItem::Exit, self@.menu == MenuItem::Exit),
            ],
            self@.platform == Platform::Web ==> m@ == seq![
                (MenuItem::Play, self@.menu == MenuItem::Play),
                (MenuItem::Settings, self@.menu == MenuItem::Settings),
            ],
    {
        let mut m: Vec<(MenuItem, bool)> = Vec::new();
        m.push((MenuItem::Play, self.main_menu_state == MenuItem::Play));
        m.push((MenuItem::Settings, self.main_menu_state == MenuItem::Settings));
        if self.platform == Platform::Native {
            m.push((MenuItem::Exit, self.main_menu_state == MenuItem::Exit));
        }
        m
    }

    /// The notes drawn while the song is played: the first `MAX_TO_RENDER`
    /// notes left in its chart.
    pub fn visible_notes(&self) -> (v: Vec<Note>)
        ensures
            v@ == self@.notes(self@.current_song).take(
                if self@.notes(self@.current_song).len() < MAX_TO_RENDER {
                    self@.notes(self@.current_song).len() as int
                } else {
                    MAX_TO_RENDER as int
                },
            ),
    {
        let notes = self.notes();
        let n = if notes.len() < MAX_TO_RENDER { notes.len() } else { MAX_TO_RENDER };
        let mut v: Vec<Note> = Vec::new();
        let mut i: usize = 0;
        while i < n
            invariant
                n <= notes.len(),
                i <= n,
                v@ == notes@.take(i as int),
            decreases n - i,
        {
            v.push(notes[i]);
            proof {
                assert(notes@.take(i + 1) == notes@.take(i as int).push(notes@[i as int]));
            }
            i += 1;
        }
        v
    }

    /// The milliseconds since the game's timer last started. Nothing is
    /// stated of the result: it is read from the clock.
    pub fn elapsed_millis(&self) -> u128 {
        clock::peek_millis(&self.timer)
    }

    /// Where the game runs.
    pub fn platform(&self) -> (p: Platform)
        ensures
            p == self@.platform,
    {
        self.platform
    }
}

} // verus!
