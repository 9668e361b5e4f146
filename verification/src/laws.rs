use vstd::prelude::*;
use crate::game::{SongId, main_menu_input, song_select_input, game_state, GameView, MenuItem, Platform, input_spec, initial_view, update_spec, is_nav_down, is_nav_up, expired_at, loaded_view, finished_view};
use crate::keyboard::KeyboardEvent;
use crate::audio::web_effect;
use crate::scoring::{Note, Judgement, TIME_OFFSET, MISS_PENALTY, HIT_REWARD, notes_after_press, score_after_press, missed_count, judge, live_notes, is_live, first_stop, is_first_stop, stops_at, live_notes_are_live};

verus! {

/// In the native main menu, moving down and then up (or up and then down)
/// comes back to the same state.
pub proof fn lemma_native_menu_down_up(v: GameView, down: KeyboardEvent, up: KeyboardEvent, now: int)
    requires
        v.state == game_state::main_menu,
        v.platform == Platform::Native,
        down.is_down && is_nav_down(down.key),
        up.is_down && is_nav_up(up.key),
    ensures
        input_spec(input_spec(v, down, now), up, now) == v,
        input_spec(input_spec(v, up, now), down, now) == v,
        main_menu_input(main_menu_input(v, down), up) == v,
        main_menu_input(main_menu_input(v, up), down) == v,
{
}

/// In the native main menu, three moves down come back to the same entry.
pub proof fn lemma_native_menu_cycle(v: GameView, down: KeyboardEvent, now: int)
    requires
        v.state == game_state::main_menu,
        v.platform == Platform::Native,
        down.is_down && is_nav_down(down.key),
    ensures
        input_spec(input_spec(input_spec(v, down, now), down, now), down, now) == v,
        main_menu_input(main_menu_input(main_menu_input(v, down), down), down) == v,
{
}

/// In the browser's main menu, two moves (in any direction) come back to the
/// same state.
pub proof fn lemma_web_menu_toggle_twice(v: GameView, a: KeyboardEvent, b: KeyboardEvent, now: int)
    requires
        v.state == game_state::main_menu,
        v.platform == Platform::Web,
        a.is_down && (is_nav_down(a.key) || is_nav_up(a.key)),
        b.is_down && (is_nav_down(b.key) || is_nav_up(b.key)),
    ensures
        input_spec(input_spec(v, a, now), b, now) == v,
        main_menu_input(main_menu_input(v, a), b) == v,
{
}

/// The browser's menu has no exit entry: a game that starts in the browser
/// never selects it, whatever key comes.
pub proof fn lemma_web_menu_never_exit(v: GameView, e: KeyboardEvent, now: int, t: instant::Instant)
    requires
        v.platform == Platform::Web ==> v.menu != MenuItem::Exit,
    ensures
        initial_view(Platform::Web, t).menu != MenuItem::Exit,
        input_spec(v, e, now).platform == v.platform,
        v.platform == Platform::Web ==> input_spec(v, e, now).menu != MenuItem::Exit,
        update_spec(v).menu == v.menu,
{
}

/// On the song selection screen, two moves come back to the same song.
pub proof fn lemma_song_select_toggle_twice(v: GameView, a: KeyboardEvent, b: KeyboardEvent, now: int)
    requires
        v.state == game_state::song_select,
        a.is_down && (is_nav_down(a.key) || is_nav_up(a.key)),
        b.is_down && (is_nav_down(b.key) || is_nav_up(b.key)),
    ensures
        input_spec(input_spec(v, a, now), b, now) == v,
        song_select_input(song_select_input(v, a), b) == v,
{
}

/// Keys change neither the score nor the charts except while a song is
/// played, and a key coming up never does.
pub proof fn lemma_keys_keep_score(v: GameView, e: KeyboardEvent, now: int)
    requires
        v.state != game_state::song_game_screen_play || !e.is_down,
    ensures
        input_spec(v, e, now).score == v.score,
        input_spec(v, e, now).karin == v.karin,
        input_spec(v, e, now).xepher == v.xepher,
{
}

/// A chart is in time order.
pub open spec fn sorted_by_time(s: Seq<Note>) -> bool {
    forall|i: int, j: int| 0 <= i < j < s.len() ==> s[i].0 <= s[j].0
}

/// Filtering keeps only notes of the chart, and keeps a chart in time order.
pub proof fn lemma_filter_sub(s: Seq<Note>, p: spec_fn(Note) -> bool)
    ensures
        forall|i: int| 0 <= i < s.filter(p).len() ==> s.contains(#[trigger] s.filter(p)[i]),
        sorted_by_time(s) ==> sorted_by_time(s.filter(p)),
    decreases s.len(),
{
    reveal_with_fuel(Seq::filter, 1);
    if s.len() > 0 {
        let t = s.drop_last();
        lemma_filter_sub(t, p);
        let ft = t.filter(p);
        assert forall|i: int| 0 <= i < ft.len() implies s.contains(ft[i]) by {
            let k = choose|k: int| 0 <= k < t.len() && t[k] == ft[i];
            assert(s[k] == t[k]);
        }
        if p(s.last()) {
            let f = ft.push(s.last());
            assert forall|i: int| 0 <= i < f.len() implies s.contains(f[i]) by {
                if i < ft.len() {
                    assert(f[i] == ft[i]);
                } else {
                    assert(s[s.len() - 1] == f[i]);
                }
            }
            if sorted_by_time(s) {
                assert(sorted_by_time(t)) by {
                    assert forall|i: int, j: int| 0 <= i < j < t.len() implies t[i].0 <= t[j].0 by {
                        assert(t[i] == s[i] && t[j] == s[j]);
                    }
                }
                assert forall|i: int, j: int| 0 <= i < j < f.len() implies f[i].0 <= f[j].0 by {
                    if j == f.len() - 1 {
                        let k = choose|k: int| 0 <= k < t.len() && t[k] == ft[i];
                        assert(s[k] == t[k]);
                        assert(f[i] == ft[i]);
                    } else {
                        assert(f[i] == ft[i] && f[j] == ft[j]);
                    }
                }
            }
        } else {
            if sorted_by_time(s) {
                assert forall|i: int, j: int| 0 <= i < j < t.len() implies t[i].0 <= t[j].0 by {
                    assert(t[i] == s[i] && t[j] == s[j]);
                }
            }
        }
    }
}

/// Every note counted once: after a press, the notes left, the notes that
/// passed and the note hit (if any) make up the chart before it.
pub proof fn lemma_press_accounting(notes: Seq<Note>, dir: i32, now: int)
    ensures
        notes_after_press(notes, dir, now).len() + missed_count(notes, now) + (if judge(notes, dir, now)
            == Judgement::Hit {
            1int
        } else {
            0int
        }) == notes.len(),
        missed_count(notes, now) >= 0,
{
    let live = live_notes(notes, now);
    notes.lemma_filter_len(is_live(now - TIME_OFFSET));
    if judge(notes, dir, now) == Judgement::Hit {
        let k = first_stop(live, dir, now);
        assert(is_first_stop(live, dir, now, k));
        live.remove_ensures(k);
    }
}

/// A press never adds a note: every note left after it was in the chart, the
/// chart stays in time order, and no passed note is left.
pub proof fn lemma_press_only_removes(notes: Seq<Note>, dir: i32, now: int)
    ensures
        forall|i: int|
            0 <= i < notes_after_press(notes, dir, now).len() ==> notes.contains(
                #[trigger] notes_after_press(notes, dir, now)[i],
            ),
        sorted_by_time(notes) ==> sorted_by_time(notes_after_press(notes, dir, now)),
        forall|i: int|
            0 <= i < notes_after_press(notes, dir, now).len() ==> #[trigger] notes_after_press(
                notes,
                dir,
                now,
            )[i].0 > now - TIME_OFFSET,
{
    let live = live_notes(notes, now);
    let p = is_live(now - TIME_OFFSET);
    lemma_filter_sub(notes, p);
    assert forall|i: int| 0 <= i < live.len() implies live[i].0 > now - TIME_OFFSET by {
        live_notes_are_live(notes, now, i);
    }
    if judge(notes, dir, now) == Judgement::Hit {
        let k = first_stop(live, dir, now);
        assert(is_first_stop(live, dir, now, k));
        live.remove_ensures(k);
        let after = live.remove(k);
        assert forall|i: int| 0 <= i < after.len() implies notes.contains(after[i]) by {
            if i < k {
                assert(after[i] == live[i]);
            } else {
                assert(after[i] == live[i + 1]);
            }
        }
        assert forall|i: int| 0 <= i < after.len() implies after[i].0 > now - TIME_OFFSET by {
            if i < k {
                assert(after[i] == live[i]);
            } else {
                assert(after[i] == live[i + 1]);
            }
        }
        if sorted_by_time(notes) {
            assert forall|i: int, j: int| 0 <= i < j < after.len() implies after[i].0 <= after[j].0 by {
                let a = if i < k { i } else { i + 1 };
                let b = if j < k { j } else { j + 1 };
                assert(after[i] == live[a]);
                assert(after[j] == live[b]);
            }
        }
    }
}

/// A hit takes out exactly one note: the first note that decides the press,
/// due within `TIME_OFFSET` of it and of the pressed direction.
pub proof fn lemma_hit_takes_one_note(notes: Seq<Note>, dir: i32, now: int)
    requires
        judge(notes, dir, now) == Judgement::Hit,
    ensures
        exists|k: int|
            {
                &&& 0 <= k < live_notes(notes, now).len()
                &&& now - TIME_OFFSET < #[trigger] live_notes(notes, now)[k].0 < now + TIME_OFFSET
                &&& live_notes(notes, now)[k].1 == dir
                &&& notes_after_press(notes, dir, now) == live_notes(notes, now).remove(k)
            },
{
    let live = live_notes(notes, now);
    let k = first_stop(live, dir, now);
    assert(is_first_stop(live, dir, now, k));
    live_notes_are_live(notes, now, k);
    assert(now - TIME_OFFSET < live[k].0 < now + TIME_OFFSET);
}

/// A press scores exactly: each passed note costs `MISS_PENALTY`, a hit
/// gains `HIT_REWARD`, and a press with no note left or too early costs
/// `MISS_PENALTY`.
pub proof fn lemma_press_score(notes: Seq<Note>, score: int, dir: i32, now: int)
    ensures
        judge(notes, dir, now) == Judgement::Hit ==> score_after_press(notes, score, dir, now)
            == score - MISS_PENALTY * missed_count(notes, now) + HIT_REWARD,
        judge(notes, dir, now) == Judgement::Early || judge(notes, dir, now) == Judgement::Empty
            ==> score_after_press(notes, score, dir, now) == score - MISS_PENALTY * (missed_count(notes, now) + 1),
        judge(notes, dir, now) == Judgement::Unmatched ==> score_after_press(notes, score, dir, now)
            == score - MISS_PENALTY * missed_count(notes, now),
        judge(notes, dir, now) == Judgement::Empty <==> live_notes(notes, now).len() == 0,
{
}

/// From the moment a song is chosen until it is over, the song whose chart
/// was loaded is the song being played.
pub open spec fn plays_chosen_song(v: GameView) -> bool {
    v.state == game_state::load_song || v.state == game_state::song_game_screen_start
        || v.state == game_state::song_game_screen_intro || v.state
        == game_state::song_game_screen_play || v.state == game_state::song_finish ==> v.current_song
        == v.song
}

/// Every step of the game keeps the song being played the song that was
/// chosen and loaded: the first state, keys, the update, loading a chart,
/// the count-down and the start of the song, the notes that pass while it
/// is played (each step from its own screen), and the end of the song.
pub proof fn lemma_plays_chosen_song(v: GameView, e: KeyboardEvent, now: int, notes: Seq<Note>, t: instant::Instant)
    requires
        plays_chosen_song(v),
    ensures
        plays_chosen_song(initial_view(Platform::Native, t)),
        plays_chosen_song(initial_view(Platform::Web, t)),
        plays_chosen_song(input_spec(v, e, now)),
        plays_chosen_song(update_spec(v)),
        v.state == game_state::load_song ==> plays_chosen_song(loaded_view(v, notes)),
        v.state == game_state::song_game_screen_start ==> plays_chosen_song(v.restarted(game_state::song_game_screen_intro, t)),
        v.state == game_state::song_game_screen_intro ==> plays_chosen_song(v.restarted(game_state::song_game_screen_play, t)),
        plays_chosen_song(v.to(game_state::web_wait_start)),
        plays_chosen_song(v.to(game_state::boot)),
        plays_chosen_song(v.to(game_state::splash_screen)),
        v.state == game_state::song_game_screen_play ==> plays_chosen_song(expired_at(v, now)),
        plays_chosen_song(finished_view(v)),
        v.state == game_state::load_song ==> loaded_view(v, notes).notes(loaded_view(v, notes).current_song) == notes,
{
}

/// Taking out passed notes counts every note once, keeps a chart in time
/// order, and leaves no passed note; the song ends exactly when no note is
/// left.
pub proof fn lemma_expire(v: GameView, now: int)
    ensures
        expired_at(v, now).notes(v.current_song).len() + missed_count(v.notes(v.current_song), now)
            == v.notes(v.current_song).len(),
        sorted_by_time(v.notes(v.current_song)) ==> sorted_by_time(expired_at(v, now).notes(v.current_song)),
        forall|i: int|
            0 <= i < expired_at(v, now).notes(v.current_song).len() ==> #[trigger] expired_at(
                v,
                now,
            ).notes(v.current_song)[i].0 > now - TIME_OFFSET,
        (expired_at(v, now).state == game_state::song_finish) <==> (v.state == game_state::song_finish
            || expired_at(v, now).notes(v.current_song).len() == 0),
{
    let notes = v.notes(v.current_song);
    lemma_filter_sub(notes, is_live(now - TIME_OFFSET));
    assert forall|i: int| 0 <= i < live_notes(notes, now).len() implies live_notes(notes, now)[i].0 > now - TIME_OFFSET by {
        live_notes_are_live(notes, now, i);
    }
}

/// Filtering a chart whose notes all pass the test keeps it whole.
pub proof fn lemma_filter_all(s: Seq<Note>, p: spec_fn(Note) -> bool)
    requires
        forall|i: int| 0 <= i < s.len() ==> p(#[trigger] s[i]),
    ensures
        s.filter(p) == s,
    decreases s.len(),
{
    reveal_with_fuel(Seq::filter, 1);
    if s.len() > 0 {
        let t = s.drop_last();
        assert forall|i: int| 0 <= i < t.len() implies p(#[trigger] t[i]) by {
            assert(t[i] == s[i]);
        }
        lemma_filter_all(t, p);
        assert(p(s[s.len() - 1]));
        assert(t.push(s.last()) == s);
    }
}

/// Taking out the passed notes a second time at the same time changes
/// nothing: no note is left to take out or to charge.
pub proof fn lemma_expire_twice(v: GameView, now: int)
    ensures
        expired_at(expired_at(v, now), now) == expired_at(v, now),
{
    let notes = v.notes(v.current_song);
    let live = live_notes(notes, now);
    assert forall|i: int| 0 <= i < live.len() implies #[trigger] is_live(now - TIME_OFFSET)(live[i]) by {
        live_notes_are_live(notes, now, i);
    }
    lemma_filter_all(live, is_live(now - TIME_OFFSET));
    let w = expired_at(v, now);
    assert(w.notes(w.current_song) == live);
    assert(live_notes(live, now) == live);
    assert(missed_count(live, now) == 0);
}

/// A native game never shows the screens of the browser.
pub open spec fn native_stays_native(v: GameView) -> bool {
    v.platform == Platform::Native ==> v.state != game_state::web_load && v.state
        != game_state::web_wait_start
}

/// Every step of the game keeps a native game off the browser's screens,
/// and no step changes the platform: the first state, keys, the update, a
/// pointer, and each screen's step from its own screen (the waiting screen's
/// from the browser's loading screen only).
pub proof fn lemma_native_never_browser_screens(v: GameView, e: KeyboardEvent, now: int, notes: Seq<Note>, t: instant::Instant)
    requires
        native_stays_native(v),
    ensures
        native_stays_native(initial_view(Platform::Native, t)),
        native_stays_native(input_spec(v, e, now)) && input_spec(v, e, now).platform == v.platform,
        native_stays_native(update_spec(v)) && update_spec(v).platform == v.platform,
        v.state == game_state::web_wait_start ==> native_stays_native(v.to(game_state::init_boot)),
        v.state == game_state::web_load ==> v.platform == Platform::Web,
        v.state == game_state::init_boot ==> native_stays_native(v.to(game_state::boot)),
        v.state == game_state::boot ==> native_stays_native(v.to(game_state::splash_screen)),
        v.state == game_state::load_song ==> native_stays_native(loaded_view(v, notes)),
        v.state == game_state::song_game_screen_start ==> native_stays_native(v.restarted(game_state::song_game_screen_intro, t)),
        v.state == game_state::song_game_screen_intro ==> native_stays_native(v.restarted(game_state::song_game_screen_play, t)),
        v.state == game_state::song_game_screen_play ==> native_stays_native(expired_at(v, now)),
        v.state == game_state::song_finish ==> native_stays_native(finished_view(v)),
{
}

/// The browser does the same with two commands that differ only in their
/// sink.
pub proof fn lemma_web_ignores_sink(a: (i32, Seq<char>, i32), b: (i32, Seq<char>, i32))
    requires
        a.1 == b.1,
        a.2 == b.2,
    ensures
        web_effect(a.2, a.1) == web_effect(b.2, b.1),
{
}

/// The clock that presses are timed against is started only by the game's
/// creation, the start of the count-down and the start of the song: keys,
/// the update, a pointer, loading a chart, taking out passed notes and the
/// end of the song all leave it as it was.
pub proof fn lemma_clock_kept(v: GameView, e: KeyboardEvent, now: int, notes: Seq<Note>)
    ensures
        input_spec(v, e, now).timer == v.timer,
        update_spec(v).timer == v.timer,
        v.to(game_state::init_boot).timer == v.timer,
        loaded_view(v, notes).timer == v.timer,
        expired_at(v, now).timer == v.timer,
        finished_view(v).timer == v.timer,
{
}

/// A key coming up changes nothing outside a song being played: the
/// screen, the chosen menu entry and the chosen song stay as they were, on
/// every screen and on either platform; only pressing a key moves a menu.
pub proof fn lemma_key_up_changes_nothing(v: GameView, e: KeyboardEvent, now: int)
    requires
        !e.is_down,
    ensures
        main_menu_input(v, e) == v,
        song_select_input(v, e) == v,
        v.state != game_state::song_game_screen_play ==> input_spec(v, e, now) == v,
        input_spec(v, e, now).state == v.state,
        input_spec(v, e, now).menu == v.menu,
        input_spec(v, e, now).song == v.song,
        input_spec(v, e, now).score == v.score,
{
}

/// Loading a chart puts the score back to 0, whatever it was, makes the
/// chosen song's chart the loaded notes and leaves the other chart alone,
/// and readies the song to start.
pub proof fn lemma_load_resets_score(v: GameView, notes: Seq<Note>)
    ensures
        loaded_view(v, notes).score == 0,
        loaded_view(v, notes).state == game_state::song_game_screen_start,
        loaded_view(v, notes).notes(v.song) == notes,
        v.song == SongId::Karin ==> loaded_view(v, notes).xepher == v.xepher,
        v.song == SongId::Xepher ==> loaded_view(v, notes).karin == v.karin,
        loaded_view(v, notes).song == v.song,
{
}

/// A press of a note's own direction at the note's own time hits it: in a
/// chart in time order whose first note is due at `now` in direction `dir`,
/// the press is a hit, takes out exactly that note and gains `HIT_REWARD`.
pub proof fn lemma_press_on_time_hits(notes: Seq<Note>, score: int, dir: i32, now: int)
    requires
        sorted_by_time(notes),
        notes.len() > 0,
        notes[0].0 == now,
        notes[0].1 == dir,
    ensures
        judge(notes, dir, now) == Judgement::Hit,
        notes_after_press(notes, dir, now) == notes.drop_first(),
        score_after_press(notes, score, dir, now) == score + HIT_REWARD,
{
    let p = is_live(now - TIME_OFFSET);
    assert forall|i: int| 0 <= i < notes.len() implies p(#[trigger] notes[i]) by {
        assert(notes[0].0 <= notes[i].0);
    }
    lemma_filter_all(notes, p);
    let live = live_notes(notes, now);
    assert(live == notes);
    assert(is_first_stop(live, dir, now, 0));
    assert(exists|i: int| is_first_stop(live, dir, now, i));
    let k = first_stop(live, dir, now);
    assert(is_first_stop(live, dir, now, k));
    if k > 0 {
        assert(!stops_at(live[0], dir, now));
    }
    assert(k == 0);
    assert(missed_count(notes, now) == 0);
    assert(live.remove(0) == notes.drop_first());
}

/// A passed note is taken out: in a chart in time order, taking out the
/// notes at `now` removes exactly the notes due at or before
/// `now - TIME_OFFSET`, at `MISS_PENALTY` each, and keeps the others.
pub proof fn lemma_expire_takes_passed_prefix(v: GameView, now: int, k: int)
    requires
        sorted_by_time(v.notes(v.current_song)),
        0 <= k <= v.notes(v.current_song).len(),
        forall|i: int| 0 <= i < k ==> #[trigger] v.notes(v.current_song)[i].0 <= now - TIME_OFFSET,
        forall|i: int|
            k <= i < v.notes(v.current_song).len() ==> #[trigger] v.notes(v.current_song)[i].0 > now
                - TIME_OFFSET,
    ensures
        expired_at(v, now).notes(v.current_song) == v.notes(v.current_song).subrange(k, v.notes(v.current_song).len() as int),
        expired_at(v, now).score == v.score - MISS_PENALTY * k,
        expired_at(v, now).state == (if k == v.notes(v.current_song).len() {
            game_state::song_finish
        } else {
            v.state
        }),
{
    let s = v.notes(v.current_song);
    lemma_filter_split(s, is_live(now - TIME_OFFSET), k);
}

/// Filtering a sequence whose first `k` items fail the test and whose other
/// items pass it leaves exactly those other items.
proof fn lemma_filter_split(s: Seq<Note>, p: spec_fn(Note) -> bool, k: int)
    requires
        0 <= k <= s.len(),
        forall|i: int| 0 <= i < k ==> !p(#[trigger] s[i]),
        forall|i: int| k <= i < s.len() ==> p(#[trigger] s[i]),
    ensures
        s.filter(p) == s.subrange(k, s.len() as int),
    decreases s.len(),
{
    reveal_with_fuel(Seq::filter, 1);
    if s.len() > 0 {
        if k == s.len() {
            let t = s.drop_last();
            assert forall|i: int| 0 <= i < t.len() implies !p(#[trigger] t[i]) by {
                assert(t[i] == s[i]);
            }
            lemma_filter_split(t, p, k - 1);
            assert(!p(s[s.len() - 1]));
            assert(s.subrange(k, s.len() as int) == Seq::<Note>::empty());
            assert(t.subrange(k - 1, t.len() as int) == Seq::<Note>::empty());
        } else {
            let t = s.drop_last();
            assert forall|i: int| 0 <= i < k implies !p(#[trigger] t[i]) by {
                assert(t[i] == s[i]);
            }
            assert forall|i: int| k <= i < t.len() implies p(#[trigger] t[i]) by {
                assert(t[i] == s[i]);
            }
            lemma_filter_split(t, p, k);
            assert(p(s[s.len() - 1]));
            assert(t.subrange(k, t.len() as int).push(s.last()) == s.subrange(k, s.len() as int));
        }
    }
}

} // verus!
