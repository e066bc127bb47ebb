//! The in-memory log the desktop shell shows: the last lines written to the
//! gateway's log output.

use vstd::prelude::*;
use std::collections::VecDeque;
use crate::text::{chars_of, push_char, trim_end, trim_end_spec};

verus! {

broadcast use {vstd::string::group_string_axioms, vstd::std_specs::vecdeque::group_vec_dequeue_axioms};

/// How many lines the log keeps.
pub const LOG_CAP: usize = 500;

/// What `String::from_utf8_lossy` decodes `bytes` to.
pub uninterp spec fn utf8_lossy(bytes: Seq<u8>) -> Seq<char>;

/// Decodes UTF-8, replacing invalid sequences with U+FFFD; wraps
/// `String::from_utf8_lossy`. The contract claims only that the result is
/// determined by the bytes.
#[verifier::external_body]
fn decode_utf8_lossy(bytes: &[u8]) -> (r: String)
    ensures
        r@ == utf8_lossy(bytes@),
{
    String::from_utf8_lossy(bytes).into_owned()
}

/// The log after one more kept line: the oldest line goes when full.
pub open spec fn cap_push(lines: Seq<Seq<char>>, line: Seq<char>) -> Seq<Seq<char>> {
    if lines.len() >= LOG_CAP {
        lines.skip(1).push(line)
    } else {
        lines.push(line)
    }
}

/// The log state `(partial line, kept lines)` after one more character: a
/// newline ends the partial line, which is kept without its trailing
/// whitespace unless that leaves nothing.
pub open spec fn log_step(state: (Seq<char>, Seq<Seq<char>>), c: char) -> (Seq<char>, Seq<Seq<char>>) {
    if c == '\n' {
        let line = trim_end_spec(state.0);
        if line.len() == 0 {
            (Seq::empty(), state.1)
        } else {
            (Seq::empty(), cap_push(state.1, line))
        }
    } else {
        (state.0.push(c), state.1)
    }
}

/// The log state after `text`, character by character.
pub open spec fn log_feed(state: (Seq<char>, Seq<Seq<char>>), text: Seq<char>) -> (Seq<char>, Seq<Seq<char>>)
    decreases text.len(),
{
    if text.len() == 0 {
        state
    } else {
        log_step(log_feed(state, text.drop_last()), text.last())
    }
}

/// The lines of `s` that a newline ends, each without its newline, and
/// what follows the last newline.
pub open spec fn split_lines(s: Seq<char>) -> (Seq<Seq<char>>, Seq<char>)
    decreases s.len(),
{
    if s.len() == 0 {
        (Seq::empty(), Seq::empty())
    } else {
        let (ls, t) = split_lines(s.drop_last());
        if s.last() == '\n' {
            (ls.push(t), Seq::empty())
        } else {
            (ls, t.push(s.last()))
        }
    }
}

/// The lines each followed by a newline, one after another.
pub open spec fn join_lines(ls: Seq<Seq<char>>) -> Seq<char>
    decreases ls.len(),
{
    if ls.len() == 0 {
        Seq::empty()
    } else {
        join_lines(ls.drop_last()) + ls.last().push('\n')
    }
}

/// The lines the log keeps of `raw`: each without trailing whitespace,
/// and those that are then empty left out.
pub open spec fn kept_lines(raw: Seq<Seq<char>>) -> Seq<Seq<char>>
    decreases raw.len(),
{
    if raw.len() == 0 {
        Seq::empty()
    } else {
        let line = trim_end_spec(raw.last());
        if line.len() == 0 {
            kept_lines(raw.drop_last())
        } else {
            kept_lines(raw.drop_last()).push(line)
        }
    }
}

/// The last `LOG_CAP` lines of `lines` (all of them when there are fewer).
pub open spec fn last_lines(lines: Seq<Seq<char>>) -> Seq<Seq<char>> {
    if lines.len() <= LOG_CAP {
        lines
    } else {
        lines.skip(lines.len() - LOG_CAP)
    }
}

/// Bounded log of complete output lines plus the line being written.
pub struct LogBuffer {
    partial: String,
    lines: VecDeque<String>,
}

impl LogBuffer {
    /// The partial line and the kept lines.
    pub closed spec fn state(&self) -> (Seq<char>, Seq<Seq<char>>) {
        (self.partial@, self.lines@.map_values(|l: String| l@))
    }

    #[verifier::type_invariant]
    closed spec fn inv(&self) -> bool {
        &&& self.lines@.len() <= LOG_CAP
        &&& !self.partial@.contains('\n')
    }

    /// An empty log.
    pub fn new() -> (r: LogBuffer)
        ensures
            r.state() == (Seq::<char>::empty(), Seq::<Seq<char>>::empty()),
    {
        let r = LogBuffer { partial: String::new(), lines: VecDeque::new() };
        assert(r.lines@.map_values(|l: String| l@) =~= Seq::<Seq<char>>::empty());
        r
    }

    /// Append written text: each completed line is kept without trailing
    /// whitespace (empty ones are dropped), and only the last `LOG_CAP`
    /// lines stay.
    pub fn push_text(&mut self, text: &str)
        ensures
            final(self).state() == log_feed(old(self).state(), text@),
            final(self).state().0 == split_lines(old(self).state().0 + text@).1,
            final(self).state().1 == last_lines(
                old(self).state().1 + kept_lines(split_lines(old(self).state().0 + text@).0),
            ),
            !final(self).state().0.contains('\n'),
            final(self).state().1.len() <= LOG_CAP,
    {
        proof {
            use_type_invariant(&*self);
            lemma_log_window(self.partial@, self.state().1, text@);
        }
        let v = chars_of(text);
        let mut partial = String::new();
        std::mem::swap(&mut partial, &mut self.partial);
        let mut lines: VecDeque<String> = VecDeque::new();
        std::mem::swap(&mut lines, &mut self.lines);
        let ghost start = (partial@, lines@.map_values(|l: String| l@));
        assert(text@.take(0) =~= Seq::<char>::empty());
        let mut i: usize = 0;
        while i < v.len()
            invariant
                i <= v.len(),
                v@ == text@,
                lines@.len() <= LOG_CAP,
                !partial@.contains('\n'),
                (partial@, lines@.map_values(|l: String| l@)) == log_feed(start, text@.take(i as int)),
            decreases v.len() - i,
        {
            assert(text@.take(i + 1).drop_last() =~= text@.take(i as int));
            let c = v[i];
            let ghost before = lines@.map_values(|l: String| l@);
            if c == '\n' {
                let line = trim_end(partial.as_str());
                partial = String::new();
                if !line.as_str().is_empty() {
                    if lines.len() >= LOG_CAP {
                        let _ = lines.pop_front();
                        assert(lines@.map_values(|l: String| l@) =~= before.skip(1));
                    }
                    lines.push_back(line);
                    assert(lines@.map_values(|l: String| l@) =~= cap_push(before, line@));
                }
            } else {
                let ghost p0 = partial@;
                push_char(&mut partial, c);
                assert forall|j: int| 0 <= j < partial@.len() implies partial@[j] != '\n' by {
                    if j < p0.len() {
                        assert(partial@[j] == p0[j]);
                    }
                }
            }
            i += 1;
        }
        assert(text@.take(v.len() as int) =~= text@);
        self.partial = partial;
        self.lines = lines;
    }

    /// Append written bytes, decoded as UTF-8 with invalid sequences replaced.
    pub fn push(&mut self, buf: &[u8])
        ensures
            final(self).state() == log_feed(old(self).state(), utf8_lossy(buf@)),
            final(self).state().0 == split_lines(old(self).state().0 + utf8_lossy(buf@)).1,
            final(self).state().1 == last_lines(
                old(self).state().1 + kept_lines(
                    split_lines(old(self).state().0 + utf8_lossy(buf@)).0,
                ),
            ),
            !final(self).state().0.contains('\n'),
            final(self).state().1.len() <= LOG_CAP,
    {
        let text = decode_utf8_lossy(buf);
        self.push_text(text.as_str());
    }

    /// The kept lines, oldest first.
    pub fn snapshot(&self) -> (r: Vec<String>)
        ensures
            r@.map_values(|l: String| l@) == self.state().1,
    {
        let mut out: Vec<String> = Vec::new();
        let mut i: usize = 0;
        while i < self.lines.len()
            invariant
                i <= self.lines@.len(),
                out@.len() == i,
                forall|k: int| 0 <= k < i ==> #[trigger] out@[k]@ == self.lines@[k]@,
            decreases self.lines@.len() - i,
        {
            let x: &String = &self.lines[i];
            out.push(x.clone());
            i += 1;
        }
        assert(out@.map_values(|l: String| l@) =~= self.lines@.map_values(|l: String| l@));
        out
    }
}

/// Writing text in pieces logs the same as writing it at once.
pub proof fn lemma_log_feed_split(state: (Seq<char>, Seq<Seq<char>>), a: Seq<char>, b: Seq<char>)
    ensures
        log_feed(state, a + b) == log_feed(log_feed(state, a), b),
    decreases b.len(),
{
    if b.len() == 0 {
        assert(a + b =~= a);
    } else {
        lemma_log_feed_split(state, a, b.drop_last());
        assert((a + b).drop_last() =~= a + b.drop_last());
        assert((a + b).last() == b.last());
    }
}

/// However much is written, the log keeps at most `LOG_CAP` lines.
pub proof fn lemma_log_feed_bounded(state: (Seq<char>, Seq<Seq<char>>), text: Seq<char>)
    requires
        state.1.len() <= LOG_CAP,
    ensures
        log_feed(state, text).1.len() <= LOG_CAP,
    decreases text.len(),
{
    if text.len() > 0 {
        lemma_log_feed_bounded(state, text.drop_last());
    }
}

/// Every kept line is a non-empty line of the text, without trailing whitespace.
pub proof fn lemma_log_lines_trimmed(state: (Seq<char>, Seq<Seq<char>>), text: Seq<char>)
    requires
        forall|k: int|
            0 <= k < state.1.len() ==> #[trigger] state.1[k].len() > 0 && trim_end_spec(state.1[k])
                == state.1[k],
    ensures
        forall|k: int|
            0 <= k < log_feed(state, text).1.len() ==> #[trigger] log_feed(state, text).1[k].len()
                > 0 && trim_end_spec(log_feed(state, text).1[k]) == log_feed(state, text).1[k],
    decreases text.len(),
{
    if text.len() > 0 {
        lemma_trim_end_idempotent(log_feed(state, text.drop_last()).0);
        lemma_log_lines_trimmed(state, text.drop_last());
    }
}

/// A text is its newline-ended lines followed by the rest, and neither
/// holds a newline: [`split_lines`] cuts the text at each newline.
pub proof fn lemma_split_lines_decomposes(s: Seq<char>)
    ensures
        s == join_lines(split_lines(s).0) + split_lines(s).1,
        forall|k: int|
            0 <= k < split_lines(s).0.len() ==> !(#[trigger] split_lines(s).0[k]).contains('\n'),
        !split_lines(s).1.contains('\n'),
    decreases s.len(),
{
    if s.len() > 0 {
        let (ls, t) = split_lines(s.drop_last());
        lemma_split_lines_decomposes(s.drop_last());
        let c = s.last();
        assert(s =~= s.drop_last().push(c));
        if c == '\n' {
            assert(join_lines(ls.push(t)) == join_lines(ls) + t.push('\n')) by {
                assert(ls.push(t).drop_last() =~= ls);
            }
            assert(s =~= join_lines(ls.push(t)) + Seq::<char>::empty());
            assert forall|k: int| 0 <= k < ls.push(t).len() implies !(#[trigger] ls.push(t)[k]).contains(
                '\n',
            ) by {
                if k < ls.len() {
                    assert(ls.push(t)[k] == ls[k]);
                }
            }
        } else {
            assert(s =~= join_lines(ls) + t.push(c));
            assert forall|j: int| 0 <= j < t.push(c).len() implies t.push(c)[j] != '\n' by {
                if j < t.len() {
                    assert(t.push(c)[j] == t[j]);
                }
            }
        }
    }
}

/// A text without a newline is only a partial line.
proof fn lemma_split_lines_no_newline(s: Seq<char>)
    requires
        !s.contains('\n'),
    ensures
        split_lines(s) == (Seq::<Seq<char>>::empty(), s),
    decreases s.len(),
{
    if s.len() > 0 {
        assert(!s.drop_last().contains('\n')) by {
            assert forall|j: int| 0 <= j < s.drop_last().len() implies s.drop_last()[j] != '\n' by {
                assert(s.drop_last()[j] == s[j]);
            }
        }
        lemma_split_lines_no_newline(s.drop_last());
        assert(s[s.len() - 1] == s.last());
        assert(s.drop_last().push(s.last()) =~= s);
    }
}

/// Keeping one more line and then the last `LOG_CAP` is the same as
/// keeping the last `LOG_CAP` and then pushing it as the log does.
proof fn lemma_cap_push_last_lines(m: Seq<Seq<char>>, y: Seq<char>)
    ensures
        cap_push(last_lines(m), y) == last_lines(m.push(y)),
{
    if m.len() >= LOG_CAP {
        assert(last_lines(m).skip(1).push(y) =~= m.push(y).skip(m.len() + 1 - LOG_CAP));
    }
}

/// The log window: from a partial line `q` without a newline and at most
/// `LOG_CAP` kept lines, writing `text` keeps the last `LOG_CAP` of the old
/// lines followed by the lines that `q + text` completes, each without
/// trailing whitespace and the empty ones left out; what follows the last
/// newline stays pending.
pub proof fn lemma_log_window(q: Seq<char>, lines: Seq<Seq<char>>, text: Seq<char>)
    requires
        !q.contains('\n'),
        lines.len() <= LOG_CAP,
    ensures
        log_feed((q, lines), text) == (
            split_lines(q + text).1,
            last_lines(lines + kept_lines(split_lines(q + text).0)),
        ),
    decreases text.len(),
{
    if text.len() == 0 {
        assert(q + text =~= q);
        lemma_split_lines_no_newline(q);
        assert(lines + Seq::<Seq<char>>::empty() =~= lines);
    } else {
        let c = text.last();
        lemma_log_window(q, lines, text.drop_last());
        let s0 = q + text.drop_last();
        assert((q + text).drop_last() =~= s0);
        assert((q + text).last() == c);
        let (ls, t) = split_lines(s0);
        if c == '\n' {
            let line = trim_end_spec(t);
            assert(ls.push(t).drop_last() =~= ls);
            assert(ls.push(t).last() == t);
            if line.len() > 0 {
                lemma_cap_push_last_lines(lines + kept_lines(ls), line);
                assert((lines + kept_lines(ls)).push(line) =~= lines + kept_lines(ls).push(line));
            }
        }
    }
}

proof fn lemma_trim_end_idempotent(s: Seq<char>)
    ensures
        trim_end_spec(trim_end_spec(s)) == trim_end_spec(s),
    decreases s.len(),
{
    if s.len() > 0 && crate::text::is_whitespace(s.last()) {
        lemma_trim_end_idempotent(s.drop_last());
    }
}

} // verus!
