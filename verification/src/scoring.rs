use vstd::prelude::*;

verus! {

/// A note of a chart: the time at which it is due, in milliseconds from the
/// start of the song, and the direction that must be pressed for it.
pub type Note = (i32, i32);

/// How far, in milliseconds, a press may lie from a note's time.
pub const TIME_OFFSET: i32 = 200;

/// What a missed note, a press with nothing to hit, or a press too early costs.
pub const MISS_PENALTY: i32 = 300;

/// What a press that hits a note gains.
pub const HIT_REWARD: i32 = 150;

/// How a press was judged.
#[derive(PartialEq, Eq, Structural, Clone, Copy, Debug)]
pub enum Judgement {
    /// No note was left to hit.
    Empty,
    /// The next note that could stop the search is still too far ahead.
    Early,
    /// A note of the pressed direction lay within the window and was taken.
    Hit,
    /// No note decided the press; nothing happened.
    Unmatched,
}

/// The notes whose time lies after `cutoff`.
pub open spec fn is_live(cutoff: int) -> spec_fn(Note) -> bool {
    |n: Note| n.0 > cutoff
}

/// The notes that are still playable at time `now`: those due later than
/// `now - TIME_OFFSET`, in their order.
pub open spec fn live_notes(notes: Seq<Note>, now: int) -> Seq<Note> {
    notes.filter(is_live(now - TIME_OFFSET))
}

/// How many notes have passed unplayed at time `now`.
pub open spec fn missed_count(notes: Seq<Note>, now: int) -> int {
    notes.len() - live_notes(notes, now).len()
}

/// A note ends the search for a press of `dir` at `now` when it is due too far
/// ahead, or when it lies within the window and has the pressed direction.
pub open spec fn stops_at(n: Note, dir: i32, now: int) -> bool {
    n.0 > now + TIME_OFFSET || (n.0 < now + TIME_OFFSET && n.1 == dir)
}

/// `i` is the first position of `s` at which the search for a press stops.
pub open spec fn is_first_stop(s: Seq<Note>, dir: i32, now: int, i: int) -> bool {
    &&& 0 <= i < s.len()
    &&& stops_at(s[i], dir, now)
    &&& forall|j: int| 0 <= j < i ==> !stops_at(#[trigger] s[j], dir, now)
}

/// The position at which the search among the live notes stops, if any.
pub open spec fn first_stop(s: Seq<Note>, dir: i32, now: int) -> int {
    choose|i: int| is_first_stop(s, dir, now, i)
}

/// How a press of `dir` at `now` is judged against the chart `notes`.
pub open spec fn judge(notes: Seq<Note>, dir: i32, now: int) -> Judgement {
    judge_live(live_notes(notes, now), dir, now)
}

/// How a press of `dir` at `now` is judged against the notes `live` that are
/// still playable.
pub open spec fn judge_live(live: Seq<Note>, dir: i32, now: int) -> Judgement {
    if live.len() == 0 {
        Judgement::Empty
    } else if exists|i: int| is_first_stop(live, dir, now, i) {
        if live[first_stop(live, dir, now)].0 > now + TIME_OFFSET {
            Judgement::Early
        } else {
            Judgement::Hit
        }
    } else {
        Judgement::Unmatched
    }
}

/// The chart after a press of `dir` at `now`: the passed notes are gone, and
/// a hit note is taken out too.
pub open spec fn notes_after_press(notes: Seq<Note>, dir: i32, now: int) -> Seq<Note> {
    let live = live_notes(notes, now);
    if judge(notes, dir, now) == Judgement::Hit {
        live.remove(first_stop(live, dir, now))
    } else {
        live
    }
}

/// What a judgement adds to the score.
pub open spec fn judgement_points(j: Judgement) -> int {
    match j {
        Judgement::Empty => -MISS_PENALTY,
        Judgement::Early => -MISS_PENALTY,
        Judgement::Hit => HIT_REWARD as int,
        Judgement::Unmatched => 0,
    }
}

/// The score after a press: each passed note costs `MISS_PENALTY`, then the
/// press itself is scored.
pub open spec fn score_after_press(notes: Seq<Note>, score: int, dir: i32, now: int) -> int {
    score - MISS_PENALTY * missed_count(notes, now) + judgement_points(judge(notes, dir, now))
}

/// The inputs on which a press computes nothing outside `i32`.
pub open spec fn press_fits(notes: Seq<Note>, score: int, dir: i32, now: int) -> bool {
    &&& i32::MIN <= now - TIME_OFFSET
    &&& live_notes(notes, now).len() > 0 ==> now + TIME_OFFSET <= i32::MAX
    &&& notes.len() <= i32::MAX
    &&& MISS_PENALTY * missed_count(notes, now) <= i32::MAX
    &&& i32::MIN <= score - MISS_PENALTY * missed_count(notes, now)
    &&& i32::MIN <= score_after_press(notes, score, dir, now) <= i32::MAX
}

/// The notes of `notes` due after `cutoff`, in their order.
pub fn live_of(notes: &Vec<Note>, cutoff: i32) -> (kept: Vec<Note>)
    ensures
        kept@ == notes@.filter(is_live(cutoff as int)),
{
    let mut kept: Vec<Note> = Vec::new();
    let mut i: usize = 0;
    while i < notes.len()
        invariant
            0 <= i <= notes.len(),
            kept@ == notes@.take(i as int).filter(is_live(cutoff as int)),
        decreases notes.len() - i,
    {
        let n = notes[i];
        proof {
            reveal_with_fuel(Seq::filter, 1);
            assert(notes@.take(i + 1).drop_last() == notes@.take(i as int));
        }
        if n.0 > cutoff {
            kept.push(n);
        }
        i += 1;
    }
    proof {
        assert(notes@.take(notes.len() as int) == notes@);
    }
    kept
}

/// Takes out of `notes` every note due at or before `cutoff`, keeping the
/// order of the others.
pub fn drop_missed(notes: &mut Vec<Note>, cutoff: i32)
    ensures
        final(notes)@ == old(notes)@.filter(is_live(cutoff as int)),
{
    let kept = live_of(notes, cutoff);
    *notes = kept;
}

/// How a press of `dir` at `now` is judged against the playable notes
/// `live`.
pub fn judge_live_exec(live: &Vec<Note>, dir: i32, now: i32) -> (j: Judgement)
    ensures
        j == judge_live(live@, dir, now as int),
{
    if live.len() == 0 {
        return Judgement::Empty;
    }
    let hi: i64 = now as i64 + TIME_OFFSET as i64;
    let mut i: usize = 0;
    while i < live.len()
        invariant
            0 <= i <= live.len(),
            live@.len() > 0,
            hi == now + TIME_OFFSET,
            forall|j: int| 0 <= j < i ==> !stops_at(#[trigger] live@[j], dir, now as int),
        decreases live.len() - i,
    {
        let (time, pos) = live[i];
        if (time as i64) > hi || ((time as i64) < hi && pos == dir) {
            proof {
                assert(is_first_stop(live@, dir, now as int, i as int));
                let k = first_stop(live@, dir, now as int);
                assert(is_first_stop(live@, dir, now as int, k));
                assert(k == i) by {
                    if k < i { assert(!stops_at(live@[k], dir, now as int)); }
                    if k > i { assert(!stops_at(live@[i as int], dir, now as int)); }
                }
            }
            if (time as i64) > hi {
                return Judgement::Early;
            } else {
                return Judgement::Hit;
            }
        }
        i += 1;
    }
    proof {
        assert(!exists|k: int| is_first_stop(live@, dir, now as int, k));
    }
    Judgement::Unmatched
}

/// Whether taking out the passed notes of `notes` at `now` computes nothing
/// outside `i32`: exactly `expire_fits`.
pub fn expire_fits_exec(notes: &Vec<Note>, score: i32, now: i32) -> (b: bool)
    ensures
        b == expire_fits(notes@, score as int, now as int),
{
    if now < i32::MIN + TIME_OFFSET {
        return false;
    }
    if notes.len() > 2147483647usize {
        return false;
    }
    let live = live_of(notes, now - TIME_OFFSET);
    proof {
        notes@.lemma_filter_len(is_live(now - TIME_OFFSET));
    }
    let missed: i64 = (notes.len() - live.len()) as i64;
    if (MISS_PENALTY as i64) * missed > i32::MAX as i64 {
        return false;
    }
    if (score as i64) - (MISS_PENALTY as i64) * missed < i32::MIN as i64 {
        return false;
    }
    true
}

/// Whether a press of `dir` at `now` against `notes` computes nothing
/// outside `i32`: exactly `press_fits`.
pub fn press_fits_exec(notes: &Vec<Note>, score: i32, dir: i32, now: i32) -> (b: bool)
    ensures
        b == press_fits(notes@, score as int, dir, now as int),
{
    if now < i32::MIN + TIME_OFFSET {
        return false;
    }
    if notes.len() > 2147483647usize {
        return false;
    }
    let live = live_of(notes, now - TIME_OFFSET);
    proof {
        notes@.lemma_filter_len(is_live(now - TIME_OFFSET));
    }
    if live.len() > 0 && now > i32::MAX - TIME_OFFSET {
        return false;
    }
    let missed: i64 = (notes.len() - live.len()) as i64;
    if (MISS_PENALTY as i64) * missed > i32::MAX as i64 {
        return false;
    }
    let base: i64 = (score as i64) - (MISS_PENALTY as i64) * missed;
    if base < i32::MIN as i64 {
        return false;
    }
    let points: i64 = match judge_live_exec(&live, dir, now) {
        Judgement::Empty => -(MISS_PENALTY as i64),
        Judgement::Early => -(MISS_PENALTY as i64),
        Judgement::Hit => HIT_REWARD as i64,
        Judgement::Unmatched => 0,
    };
    let fin: i64 = base + points;
    i32::MIN as i64 <= fin && fin <= i32::MAX as i64
}

/// Scores a press of direction `dir` at time `now` (milliseconds from the
/// start of the song) against the chart `notes`.
///
/// Every note due at or before `now - TIME_OFFSET` has passed and is taken
/// out, at `MISS_PENALTY` each. If no note is left, the press costs
/// `MISS_PENALTY`. Otherwise the notes are searched in order for the first one
/// that is due later than `now + TIME_OFFSET` (the press is early and costs
/// `MISS_PENALTY`) or that is due before `now + TIME_OFFSET` and has direction
/// `dir` (it is hit, taken out, and gains `HIT_REWARD`).
pub fn press(notes: &mut Vec<Note>, score: &mut i32, dir: i32, now: i32) -> (j: Judgement)
    requires
        press_fits(old(notes)@, *old(score) as int, dir, now as int),
    ensures
        j == judge(old(notes)@, dir, now as int),
        final(notes)@ == notes_after_press(old(notes)@, dir, now as int),
        *final(score) == score_after_press(old(notes)@, *old(score) as int, dir, now as int),
{
    let ghost before = notes@;
    let temp_len = notes.len() as i32;
    drop_missed(notes, now - TIME_OFFSET);
    let temp_len_2 = notes.len() as i32;
    proof {
        before.lemma_filter_len(is_live(now - TIME_OFFSET));
    }
    *score = *score - MISS_PENALTY * (temp_len - temp_len_2);
    if notes.len() == 0 {
        *score = *score - MISS_PENALTY;
        return Judgement::Empty;
    }
    let ghost live = notes@;
    let len = notes.len();
    let mut i: usize = 0;
    while i < len
        invariant
            len == notes.len(),
            notes@ == live,
            live == live_notes(before, now as int),
            before == old(notes)@,
            live.len() > 0,
            0 <= i <= len,
            forall|j: int| 0 <= j < i ==> !stops_at(#[trigger] live[j], dir, now as int),
            *score == *old(score) - MISS_PENALTY * missed_count(before, now as int),
            press_fits(before, *old(score) as int, dir, now as int),
        decreases len - i,
    {
        let (time, pos) = notes[i];
        if time > now + TIME_OFFSET {
            proof {
                assert(is_first_stop(live, dir, now as int, i as int));
                let k = first_stop(live, dir, now as int);
                assert(is_first_stop(live, dir, now as int, k));
                assert(k == i) by {
                    if k < i { assert(!stops_at(live[k], dir, now as int)); }
                    if k > i { assert(!stops_at(live[i as int], dir, now as int)); }
                }
                assert(live[k].0 > now + TIME_OFFSET);
                assert(judge(before, dir, now as int) == Judgement::Early);
            }
            *score = *score - MISS_PENALTY;
            return Judgement::Early;
        } else if time > now - TIME_OFFSET && time < now + TIME_OFFSET {
            if dir == pos {
                proof {
                    assert(is_first_stop(live, dir, now as int, i as int));
                    let k = first_stop(live, dir, now as int);
                    assert(is_first_stop(live, dir, now as int, k));
                    assert(k == i) by {
                        if k < i { assert(!stops_at(live[k], dir, now as int)); }
                        if k > i { assert(!stops_at(live[i as int], dir, now as int)); }
                    }
                }
                *score = *score + HIT_REWARD;
                notes.remove(i);
                return Judgement::Hit;
            }
        }
        proof {
            assert(time <= now + TIME_OFFSET);
            assert(!stops_at(live[i as int], dir, now as int)) by {
                // every live note is due after `now - TIME_OFFSET`
                live_notes_are_live(before, now as int, i as int);
            }
        }
        i += 1;
    }
    proof {
        assert(!exists|k: int| is_first_stop(live, dir, now as int, k));
    }
    Judgement::Unmatched
}

/// The inputs on which taking out the passed notes computes nothing outside
/// `i32`.
pub open spec fn expire_fits(notes: Seq<Note>, score: int, now: int) -> bool {
    &&& i32::MIN <= now - TIME_OFFSET
    &&& notes.len() <= i32::MAX
    &&& MISS_PENALTY * missed_count(notes, now) <= i32::MAX
    &&& i32::MIN <= score - MISS_PENALTY * missed_count(notes, now)
}

/// Takes out of `notes` the notes that have passed at `now` (those due at or
/// before `now - TIME_OFFSET`), at `MISS_PENALTY` each.
pub fn expire(notes: &mut Vec<Note>, score: &mut i32, now: i32)
    requires
        expire_fits(old(notes)@, *old(score) as int, now as int),
    ensures
        final(notes)@ == live_notes(old(notes)@, now as int),
        *final(score) == *old(score) - MISS_PENALTY * missed_count(old(notes)@, now as int),
{
    let ghost before = notes@;
    let temp_len = notes.len() as i32;
    drop_missed(notes, now - TIME_OFFSET);
    let temp_len_2 = notes.len() as i32;
    proof {
        before.lemma_filter_len(is_live(now - TIME_OFFSET));
    }
    *score = *score - MISS_PENALTY * (temp_len - temp_len_2);
}

/// Every note kept live at `now` is due after `now - TIME_OFFSET`.
pub proof fn live_notes_are_live(notes: Seq<Note>, now: int, i: int)
    requires
        0 <= i < live_notes(notes, now).len(),
    ensures
        live_notes(notes, now)[i].0 > now - TIME_OFFSET,
{
    notes.lemma_filter_pred(is_live(now - TIME_OFFSET), i);
}

} // verus!
