use vstd::prelude::*;
use crate::scoring::Note;

verus! {

/// The direction of a note to be hit with the left arrow (D or Left).
pub const LEFT: i32 = 0;
/// The direction of a note to be hit with the down arrow (F or Down).
pub const DOWN: i32 = 1;
/// The direction of a note to be hit with the up arrow (J or Up).
pub const UP: i32 = 2;
/// The direction of a note to be hit with the right arrow (K or Right).
pub const RIGHT: i32 = 3;

/// The byte that separates the lines of a chart file.
pub const NEWLINE: u8 = 10;
/// The byte that separates the time of a note from its direction.
pub const COMMA: u8 = 44;
/// The sign of a negative number.
pub const MINUS: u8 = 45;

/// An ASCII decimal digit.
pub open spec fn is_digit(b: u8) -> bool {
    48 <= b <= 57
}

/// The number that a string of decimal digits writes.
pub open spec fn digits_value(s: Seq<u8>) -> int
    decreases s.len(),
{
    if s.len() == 0 {
        0
    } else {
        digits_value(s.drop_last()) * 10 + (s.last() - 48)
    }
}

/// A non-empty string of decimal digits.
pub open spec fn all_digits(s: Seq<u8>) -> bool {
    s.len() > 0 && forall|i: int| 0 <= i < s.len() ==> is_digit(#[trigger] s[i])
}

/// The `i32` that `s` writes in decimal, with an optional leading minus sign,
/// if it writes one.
pub open spec fn int_value(s: Seq<u8>) -> Option<i32> {
    if all_digits(s) && digits_value(s) <= i32::MAX {
        Some(digits_value(s) as i32)
    } else if s.len() > 0 && s[0] == MINUS && all_digits(s.drop_first()) && digits_value(
        s.drop_first(),
    ) <= 2147483648 {
        Some((-digits_value(s.drop_first())) as i32)
    } else {
        None
    }
}

/// The first position of byte `b` in `s`, if `b` occurs.
pub open spec fn index_of(s: Seq<u8>, b: u8) -> Option<int>
    decreases s.len(),
{
    if s.len() == 0 {
        None
    } else if s[0] == b {
        Some(0)
    } else {
        match index_of(s.drop_first(), b) {
            Some(i) => Some(i + 1),
            None => None,
        }
    }
}

/// `index_of` gives the first occurrence, and `None` exactly when there is none.
pub proof fn lemma_index_of(s: Seq<u8>, b: u8)
    ensures
        index_of(s, b) is None <==> forall|j: int| 0 <= j < s.len() ==> s[j] != b,
        index_of(s, b) matches Some(i) ==> 0 <= i < s.len() && s[i] == b && forall|j: int|
            0 <= j < i ==> s[j] != b,
    decreases s.len(),
{
    if s.len() > 0 {
        let t = s.drop_first();
        lemma_index_of(t, b);
        if s[0] != b {
            match index_of(t, b) {
                Some(i) => {
                    assert forall|j: int| 0 <= j < i + 1 implies s[j] != b by {
                        if j > 0 {
                            assert(s[j] == t[j - 1]);
                        }
                    }
                },
                None => {
                    assert forall|j: int| 0 <= j < s.len() implies s[j] != b by {
                        if j > 0 {
                            assert(s[j] == t[j - 1]);
                        }
                    }
                },
            }
            if forall|j: int| 0 <= j < s.len() ==> s[j] != b {
                assert forall|k: int| 0 <= k < t.len() implies t[k] != b by {
                    assert(t[k] == s[k + 1]);
                }
            }
        }
    }
}

/// The note that one line of a chart writes: its time, a comma, and its
/// direction.
pub open spec fn line_note(line: Seq<u8>) -> Option<Note> {
    match index_of(line, COMMA) {
        Some(c) => match (int_value(line.take(c)), int_value(line.skip(c + 1))) {
            (Some(t), Some(d)) => Some((t, d)),
            _ => None,
        },
        None => None,
    }
}

/// A line put in front of the notes of the lines that follow it: an empty
/// line adds nothing, any other must write a note.
pub open spec fn with_line(line: Seq<u8>, rest: Option<Seq<Note>>) -> Option<Seq<Note>> {
    if line.len() == 0 {
        rest
    } else {
        match (line_note(line), rest) {
            (Some(n), Some(r)) => Some(seq![n] + r),
            _ => None,
        }
    }
}

/// The notes that a chart file holds: its lines are separated by newlines,
/// empty lines are skipped, and every other line writes one note. `None`
/// where a line writes no note.
pub open spec fn chart_notes(text: Seq<u8>) -> Option<Seq<Note>>
    decreases text.len(),
{
    match index_of(text, NEWLINE) {
        Some(i) => {
            proof {
                lemma_index_of(text, NEWLINE);
            }
            if 0 <= i < text.len() {
                with_line(text.take(i), chart_notes(text.skip(i + 1)))
            } else {
                None
            }
        },
        None => with_line(text, Some(Seq::empty())),
    }
}

/// The chart of a song: its notes, in the order in which they come.
pub struct Song {
    pub keys: Vec<Note>,
}

/// `acc` put in front of the notes `rest`.
pub open spec fn prepend(acc: Seq<Note>, rest: Option<Seq<Note>>) -> Option<Seq<Note>> {
    match rest {
        Some(r) => Some(acc + r),
        None => None,
    }
}

/// The first position of byte `b` in `s[from..to]`, counted from the start
/// of `s`.
fn find_byte(s: &[u8], from: usize, to: usize, b: u8) -> (r: Option<usize>)
    requires
        from <= to <= s@.len(),
    ensures
        r matches Some(i) ==> from <= i < to && index_of(s@.subrange(from as int, to as int), b)
            == Some(i - from),
        r is None ==> index_of(s@.subrange(from as int, to as int), b) is None,
{
    let ghost sub = s@.subrange(from as int, to as int);
    proof {
        lemma_index_of(sub, b);
    }
    let mut i = from;
    while i < to
        invariant
            from <= i <= to <= s@.len(),
            sub == s@.subrange(from as int, to as int),
            forall|j: int| from <= j < i ==> s@[j] != b,
        decreases to - i,
    {
        if s[i] == b {
            proof {
                lemma_index_of(sub, b);
                assert(sub[i - from] == b);
                assert forall|j: int| 0 <= j < i - from implies sub[j] != b by {
                    assert(sub[j] == s@[from + j]);
                }
                match index_of(sub, b) {
                    Some(k) => {
                        if k < i - from {
                            assert(sub[k] != b);
                        }
                        if k > i - from {
                            assert(sub[i - from] != b);
                        }
                    },
                    None => {
                        assert(sub[i - from] != b);
                    },
                }
            }
            return Some(i);
        }
        i += 1;
    }
    proof {
        lemma_index_of(sub, b);
        assert forall|j: int| 0 <= j < sub.len() implies sub[j] != b by {
            assert(sub[j] == s@[from + j]);
        }
    }
    None
}

/// A string of all digits is worth at least any of its prefixes.
proof fn lemma_digits_prefix(s: Seq<u8>, k: int)
    requires
        0 <= k <= s.len(),
        forall|i: int| 0 <= i < s.len() ==> is_digit(#[trigger] s[i]),
    ensures
        digits_value(s) >= digits_value(s.take(k)),
        digits_value(s) >= 0,
    decreases s.len(),
{
    if s.len() > 0 {
        assert(is_digit(s[s.len() - 1]));
        lemma_digits_prefix(s.drop_last(), if k < s.len() { k } else { 0 });
        if k == s.len() {
            assert(s.take(k) == s);
        } else {
            assert(s.drop_last().take(k) == s.take(k));
        }
    }
}

/// The value of the decimal digits `s[from..to]`, where they are all digits
/// (at least one) and the value is at most 2147483648.
fn digits_at(s: &[u8], from: usize, to: usize) -> (r: Option<i64>)
    requires
        from <= to <= s@.len(),
    ensures
        r matches Some(v) ==> all_digits(s@.subrange(from as int, to as int)) && v == digits_value(
            s@.subrange(from as int, to as int),
        ) && 0 <= v <= 2147483648,
        r is None ==> !(all_digits(s@.subrange(from as int, to as int)) && digits_value(
            s@.subrange(from as int, to as int),
        ) <= 2147483648),
{
    let ghost sub = s@.subrange(from as int, to as int);
    if from == to {
        return None;
    }
    let mut v: i64 = 0;
    let mut i = from;
    while i < to
        invariant
            from <= i <= to <= s@.len(),
            sub == s@.subrange(from as int, to as int),
            forall|j: int| 0 <= j < i - from ==> is_digit(#[trigger] sub[j]),
            v == digits_value(sub.take(i - from)),
            0 <= v <= 2147483648,
        decreases to - i,
    {
        let c = s[i];
        if c < 48 || c > 57 {
            proof {
                assert(!is_digit(sub[i - from]));
            }
            return None;
        }
        proof {
            assert(sub.take(i - from + 1).drop_last() == sub.take(i - from));
            assert(sub.take(i - from + 1).last() == c);
        }
        v = v * 10 + (c as i64 - 48);
        if v > 2147483648 {
            proof {
                if all_digits(sub) {
                    lemma_digits_prefix(sub, i - from + 1);
                }
            }
            return None;
        }
        i += 1;
    }
    proof {
        assert(sub.take(i - from) == sub);
    }
    Some(v)
}

/// The `i32` that `s[from..to]` writes, as `int_value` reads it.
fn int_at(s: &[u8], from: usize, to: usize) -> (r: Option<i32>)
    requires
        from <= to <= s@.len(),
    ensures
        r == int_value(s@.subrange(from as int, to as int)),
{
    let ghost sub = s@.subrange(from as int, to as int);
    if from < to && s[from] == MINUS {
        proof {
            assert(sub.drop_first() == s@.subrange(from + 1, to as int));
            assert(!is_digit(sub[0]));
        }
        match digits_at(s, from + 1, to) {
            Some(v) => Some((-v) as i32),
            None => None,
        }
    } else {
        match digits_at(s, from, to) {
            Some(v) => {
                if v <= 2147483647 {
                    Some(v as i32)
                } else {
                    None
                }
            },
            None => {
                proof {
                    if from < to {
                        assert(sub[0] != MINUS);
                    }
                }
                None
            },
        }
    }
}

/// The note that the line `s[from..to]` writes, as `line_note` reads it.
fn note_at(s: &[u8], from: usize, to: usize) -> (r: Option<Note>)
    requires
        from <= to <= s@.len(),
    ensures
        r == line_note(s@.subrange(from as int, to as int)),
{
    let ghost line = s@.subrange(from as int, to as int);
    match find_byte(s, from, to, COMMA) {
        Some(c) => {
            proof {
                assert(line.take(c - from) == s@.subrange(from as int, c as int));
                assert(line.skip(c - from + 1) == s@.subrange(c + 1, to as int));
            }
            let t = int_at(s, from, c);
            let d = int_at(s, c + 1, to);
            match (t, d) {
                (Some(t), Some(d)) => Some((t, d)),
                _ => None,
            }
        },
        None => None,
    }
}

/// Reads the notes of a chart file: lines separated by newlines, each empty
/// or of the form `time,direction`, both decimal `i32`s. `None` where some
/// non-empty line is not of that form.
pub fn parse_chart(text: &[u8]) -> (r: Option<Vec<Note>>)
    ensures
        r matches Some(v) ==> chart_notes(text@) == Some(v@),
        r is None ==> chart_notes(text@) is None,
{
    let mut acc: Vec<Note> = Vec::new();
    let mut pos: usize = 0;
    proof {
        assert(text@.subrange(0, text@.len() as int) == text@);
    }
    loop
        invariant
            pos <= text@.len(),
            chart_notes(text@) == prepend(acc@, chart_notes(text@.subrange(pos as int, text@.len() as int))),
        decreases text@.len() - pos,
    {
        let ghost rest = text@.subrange(pos as int, text@.len() as int);
        match find_byte(text, pos, text.len(), NEWLINE) {
            Some(i) => {
                proof {
                    lemma_index_of(rest, NEWLINE);
                    assert(rest.take(i - pos) == text@.subrange(pos as int, i as int));
                    assert(rest.skip(i - pos + 1) == text@.subrange(i + 1, text@.len() as int));
                }
                if i > pos {
                    match note_at(text, pos, i) {
                        Some(n) => {
                            proof {
                                assert(acc@.push(n) == acc@ + seq![n]);
                                match chart_notes(text@.subrange(i + 1, text@.len() as int)) {
                                    Some(r) => {
                                        assert(acc@ + (seq![n] + r) == acc@.push(n) + r);
                                    },
                                    None => {},
                                }
                            }
                            acc.push(n);
                        },
                        None => {
                            return None;
                        },
                    }
                }
                pos = i + 1;
            },
            None => {
                if pos < text.len() {
                    match note_at(text, pos, text.len()) {
                        Some(n) => {
                            proof {
                                assert(acc@ + (seq![n] + Seq::<Note>::empty()) == acc@.push(n));
                            }
                            acc.push(n);
                        },
                        None => {
                            return None;
                        },
                    }
                } else {
                    proof {
                        assert(acc@ + Seq::<Note>::empty() == acc@);
                    }
                }
                return Some(acc);
            },
        }
    }
}

impl Song {
    /// A song with an empty chart.
    pub fn new() -> (s: Song)
        ensures
            s.keys@ == Seq::<Note>::empty(),
    {
        Song { keys: Vec::new() }
    }

    /// Replaces the chart by the notes of the chart file `chart`; where the
    /// file is not a chart, returns false and leaves the chart as it was.
    pub fn reload(&mut self, chart: &[u8]) -> (ok: bool)
        ensures
            ok == chart_notes(chart@) is Some,
            ok ==> Some(final(self).keys@) == chart_notes(chart@),
            !ok ==> final(self).keys@ == old(self).keys@,
    {
        match parse_chart(chart) {
            Some(notes) => {
                self.keys = notes;
                true
            },
            None => false,
        }
    }
}

} // verus!
