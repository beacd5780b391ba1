//! A line-oriented parser for the daemon's server-sent event stream.
//!
//! Bytes arrive in arbitrary chunks; the parser assembles lines, reads
//! `event:` and `data:` fields, and emits a frame at each blank line.
//! Lines it cannot classify (such as the chunk-size lines of HTTP/1.1
//! chunked transfer encoding) are skipped.

use vstd::prelude::*;
use vstd::std_specs::iter::IteratorSpec;
use vstd::string::{axiom_spec_iter, next_postcondition};

use crate::text::{push_char, trim, trimmed_text};
use crate::wire::{lossy_string, utf8_lossy};
use vstd::utf8::{decode_first_scalar, decode_utf8, pop_first_scalar, valid_utf8, valid_utf8_concat};

verus! {

/// `s` without its trailing carriage returns.
pub open spec fn trim_end_cr(s: Seq<char>) -> Seq<char>
    decreases s.len(),
{
    if s.len() > 0 && s.last() == '\r' {
        trim_end_cr(s.drop_last())
    } else {
        s
    }
}

/// One assembled event: its type and its data, each optional.
pub struct SseFrame {
    pub event_type: Option<String>,
    pub data: Option<String>,
}

/// The view of a frame.
pub type FrameView = (Option<Seq<char>>, Option<Seq<char>>);

/// The view of an optional string.
pub open spec fn opt_text(s: Option<String>) -> Option<Seq<char>> {
    match s {
        Some(s) => Some(s@),
        None => None,
    }
}

impl View for SseFrame {
    type V = FrameView;

    open spec fn view(&self) -> FrameView {
        (opt_text(self.event_type), opt_text(self.data))
    }
}

/// The parser's state: the unfinished line, the frame being assembled, and
/// the frames completed so far.
pub struct SseState {
    pub line: Seq<char>,
    pub current: FrameView,
    pub out: Seq<FrameView>,
}

/// What a completed line does to the frame under assembly: a blank line
/// emits the frame (if it has a field) and starts a new one; `event:` and
/// `data:` lines set their field to the trimmed rest; other lines are
/// skipped. Trailing carriage returns are ignored.
pub open spec fn sse_line(current: FrameView, out: Seq<FrameView>, line: Seq<char>) -> (FrameView, Seq<FrameView>) {
    let t = trim_end_cr(line);
    if t.len() == 0 {
        if current.0 is Some || current.1 is Some {
            ((None, None), out.push(current))
        } else {
            (current, out)
        }
    } else if "event:"@.is_prefix_of(t) {
        ((Some(trim(t.skip(6))), current.1), out)
    } else if "data:"@.is_prefix_of(t) {
        ((current.0, Some(trim(t.skip(5)))), out)
    } else {
        (current, out)
    }
}

/// One character of input: a newline completes the line, anything else
/// extends it.
pub open spec fn sse_step(st: SseState, c: char) -> SseState {
    if c == '\n' {
        let (cur, out) = sse_line(st.current, st.out, st.line);
        SseState { line: Seq::empty(), current: cur, out }
    } else {
        SseState { line: st.line.push(c), ..st }
    }
}

/// The state after reading `chars` from `st`.
pub open spec fn sse_run(st: SseState, chars: Seq<char>) -> SseState {
    chars.fold_left(st, |s: SseState, c: char| sse_step(s, c))
}

/// Line-oriented SSE parser, tolerant of chunked transfer encoding.
pub struct SseLineParser {
    line_buf: Vec<char>,
    current: SseFrame,
}

impl Default for SseLineParser {
    fn default() -> (r: Self)
        ensures
            r.line() == Seq::<char>::empty(),
            r.current() == (None::<Seq<char>>, None::<Seq<char>>),
    {
        let r = SseLineParser { line_buf: Vec::new(), current: SseFrame { event_type: None, data: None } };
        assert(r.line_buf@ =~= Seq::<char>::empty());
        r
    }
}

/// Whether `p` is a prefix of `s[0..n]`.
fn has_prefix(s: &Vec<char>, n: usize, p: &str) -> (r: bool)
    requires
        n <= s@.len(),
    ensures
        r == p@.is_prefix_of(s@.subrange(0, n as int)),
{
    let m = vstd::string::StrSliceExecFns::unicode_len(p);
    if m > n {
        return false;
    }
    let mut i: usize = 0;
    while i < m
        invariant
            m == p@.len(),
            m <= n <= s@.len(),
            i <= m,
            forall|j: int| 0 <= j < i ==> p@[j] == s@[j],
        decreases m - i,
    {
        if vstd::string::StrSliceExecFns::get_char(p, i) != s[i] {
            assert(p@[i as int] != s@.subrange(0, n as int)[i as int]);
            return false;
        }
        i = i + 1;
    }
    true
}

impl SseLineParser {
    /// The unfinished line.
    pub closed spec fn line(&self) -> Seq<char> {
        self.line_buf@
    }

    /// The frame under assembly.
    pub closed spec fn current(&self) -> FrameView {
        self.current@
    }

    /// Process a completed line held in `line_buf`.
    fn finish_line(&mut self, out: &mut Vec<SseFrame>)
        ensures
            final(self).line() == Seq::<char>::empty(),
            (final(self).current(), final(out)@.map_values(|f: SseFrame| f@)) == sse_line(
                old(self).current(),
                old(out)@.map_values(|f: SseFrame| f@),
                old(self).line(),
            ),
    {
        let ghost line = self.line_buf@;
        let mut end = self.line_buf.len();
        assert(line.subrange(0, end as int) =~= line);
        while end > 0 && self.line_buf[end - 1] == '\r'
            invariant
                end <= self.line_buf@.len(),
                line == self.line_buf@,
                trim_end_cr(line) == trim_end_cr(line.subrange(0, end as int)),
            decreases end,
        {
            assert(line.subrange(0, end as int).drop_last() =~= line.subrange(0, end - 1));
            end = end - 1;
        }
        let ghost t = line.subrange(0, end as int);
        assert(trim_end_cr(t) == t);
        let ghost before = out@.map_values(|f: SseFrame| f@);
        if end == 0 {
            if self.current.event_type.is_some() || self.current.data.is_some() {
                let mut frame = SseFrame { event_type: None, data: None };
                std::mem::swap(&mut frame, &mut self.current);
                out.push(frame);
                assert(out@.map_values(|f: SseFrame| f@) =~= before.push(frame@));
            }
        } else if has_prefix(&self.line_buf, end, "event:") {
            proof {
                reveal_strlit("event:");
            }
            let v = trimmed_text(&self.line_buf, 6, end);
            assert(t.skip(6) =~= line.subrange(6, end as int));
            self.current.event_type = Some(v);
        } else if has_prefix(&self.line_buf, end, "data:") {
            proof {
                reveal_strlit("data:");
            }
            let v = trimmed_text(&self.line_buf, 5, end);
            assert(t.skip(5) =~= line.subrange(5, end as int));
            self.current.data = Some(v);
        }
        self.line_buf = Vec::new();
        assert(self.line_buf@ =~= Seq::<char>::empty());
    }

    /// Feed a chunk of bytes (decoded as UTF-8, invalid sequences replaced)
    /// and return the frames it completed, in order.
    pub fn feed(&mut self, bytes: &[u8]) -> (r: Vec<SseFrame>)
        ensures
            ({
                let end = sse_run(
                    SseState { line: old(self).line(), current: old(self).current(), out: Seq::empty() },
                    utf8_lossy(bytes@),
                );
                &&& final(self).line() == end.line
                &&& final(self).current() == end.current
                &&& r@.map_values(|f: SseFrame| f@) == end.out
            }),
            valid_utf8(bytes@) ==> utf8_lossy(bytes@) == decode_utf8(bytes@),
    {
        broadcast use next_postcondition;
        let text = lossy_string(bytes);
        let ghost chars = utf8_lossy(bytes@);
        let ghost start = SseState { line: self.line(), current: self.current(), out: Seq::empty() };
        let mut out: Vec<SseFrame> = Vec::new();
        let s = text.as_str();
        proof {
            axiom_spec_iter(s);
        }
        let mut it = s.chars();
        let ghost mut k: int = 0;
        assert(chars.subrange(0, 0) =~= Seq::<char>::empty());
        assert(out@.map_values(|f: SseFrame| f@) =~= Seq::<FrameView>::empty());
        loop
            invariant
                chars == s@,
                0 <= k <= chars.len(),
                it.obeys_prophetic_iter_laws(),
                it.remaining() == chars.skip(k),
                ({
                    let st = sse_run(start, chars.subrange(0, k));
                    &&& self.line() == st.line
                    &&& self.current() == st.current
                    &&& out@.map_values(|f: SseFrame| f@) == st.out
                }),
            ensures
                ({
                    let st = sse_run(start, chars);
                    &&& self.line() == st.line
                    &&& self.current() == st.current
                    &&& out@.map_values(|f: SseFrame| f@) == st.out
                }),
            decreases chars.len() - k,
        {
            let next = it.next();
            match next {
                None => {
                    assert(chars.subrange(0, k) =~= chars);
                    break;
                },
                Some(c) => {
                    assert(c == chars[k]);
                    assert(chars.subrange(0, k + 1).drop_last() =~= chars.subrange(0, k));
                    if c == '\n' {
                        self.finish_line(&mut out);
                    } else {
                        let ghost before = self.line_buf@;
                        self.line_buf.push(c);
                    }
                    proof {
                        k = k + 1;
                        assert(chars.skip(k - 1).drop_first() =~= chars.skip(k));
                    }
                },
            }
        }
        out
    }
}

/// Splitting the input between characters changes nothing: reading `a`
/// and then `b` leaves the same state, and completes the same frames, as
/// reading `a + b` at once.
pub proof fn lemma_split_input_is_invisible(st: SseState, a: Seq<char>, b: Seq<char>)
    ensures
        sse_run(sse_run(st, a), b) == sse_run(st, a + b),
{
    let f = |s: SseState, c: char| sse_step(s, c);
    (a + b).lemma_fold_left_split(st, f, a.len() as int);
    assert((a + b).subrange(0, a.len() as int) =~= a);
    assert((a + b).subrange(a.len() as int, (a + b).len() as int) =~= b);
}

/// Frames already completed are carried through unchanged: a run started
/// with frames `o` ends with `o` followed by what the same run started
/// without them completes.
pub proof fn lemma_run_keeps_earlier_frames(line: Seq<char>, cur: FrameView, o: Seq<FrameView>, cs: Seq<char>)
    ensures
        ({
            let a = sse_run(SseState { line, current: cur, out: o }, cs);
            let b = sse_run(SseState { line, current: cur, out: Seq::empty() }, cs);
            &&& a.line == b.line
            &&& a.current == b.current
            &&& a.out == o + b.out
        }),
    decreases cs.len(),
{
    if cs.len() == 0 {
        assert(o + Seq::<FrameView>::empty() =~= o);
    } else {
        lemma_run_keeps_earlier_frames(line, cur, o, cs.drop_last());
        let a0 = sse_run(SseState { line, current: cur, out: o }, cs.drop_last());
        let b0 = sse_run(SseState { line, current: cur, out: Seq::empty() }, cs.drop_last());
        let c = cs.last();
        if c == '\n' {
            let t = trim_end_cr(a0.line);
            if t.len() == 0 && (a0.current.0 is Some || a0.current.1 is Some) {
                assert(o + b0.out.push(b0.current) =~= (o + b0.out).push(b0.current));
            }
        }
    }
}

/// Feeding a text in two pieces split between characters completes the
/// same frames, in the same order, and leaves the same unfinished line and
/// frame, as feeding it at once.
pub proof fn lemma_split_feeds_match_whole(line: Seq<char>, cur: FrameView, a: Seq<char>, b: Seq<char>)
    ensures
        ({
            let first = sse_run(SseState { line, current: cur, out: Seq::empty() }, a);
            let second = sse_run(SseState { line: first.line, current: first.current, out: Seq::empty() }, b);
            let whole = sse_run(SseState { line, current: cur, out: Seq::empty() }, a + b);
            &&& second.line == whole.line
            &&& second.current == whole.current
            &&& first.out + second.out == whole.out
        }),
{
    let st = SseState { line, current: cur, out: Seq::empty() };
    let first = sse_run(st, a);
    lemma_split_input_is_invisible(st, a, b);
    lemma_run_keeps_earlier_frames(first.line, first.current, first.out, b);
}

/// Decoding two valid UTF-8 pieces one after the other gives the same
/// text as decoding them joined.
pub proof fn lemma_decode_concat(a: Seq<u8>, b: Seq<u8>)
    requires
        valid_utf8(a),
        valid_utf8(b),
    ensures
        valid_utf8(a + b),
        decode_utf8(a + b) == decode_utf8(a) + decode_utf8(b),
    decreases a.len(),
{
    valid_utf8_concat(a, b);
    if a.len() == 0 {
        assert(a + b =~= b);
        assert(decode_utf8(a) =~= Seq::<char>::empty());
        assert(decode_utf8(a) + decode_utf8(b) =~= decode_utf8(b));
    } else {
        let rest = pop_first_scalar(a);
        assert((a + b)[0] == a[0]);
        assert(a.len() >= 2 ==> (a + b)[1] == a[1]);
        assert(a.len() >= 3 ==> (a + b)[2] == a[2]);
        assert(a.len() >= 4 ==> (a + b)[3] == a[3]);
        assert(pop_first_scalar(a + b) =~= rest + b);
        assert(decode_first_scalar(a + b) == decode_first_scalar(a));
        lemma_decode_concat(rest, b);
        assert(decode_utf8(a + b) == seq![decode_first_scalar(a) as char] + decode_utf8(rest + b));
        assert(decode_utf8(a) == seq![decode_first_scalar(a) as char] + decode_utf8(rest));
        assert(decode_utf8(a + b) =~= decode_utf8(a) + decode_utf8(b));
    }
}

/// Feeding bytes in two chunks that are each valid UTF-8 completes the
/// same frames, in the same order, and leaves the same unfinished line and
/// frame, as feeding the joined bytes at once (what [`SseLineParser::feed`]
/// reads of a valid chunk is its decoding).
pub proof fn lemma_byte_split_feeds_match_whole(line: Seq<char>, cur: FrameView, a: Seq<u8>, b: Seq<u8>)
    requires
        valid_utf8(a),
        valid_utf8(b),
    ensures
        valid_utf8(a + b),
        ({
            let first = sse_run(SseState { line, current: cur, out: Seq::empty() }, decode_utf8(a));
            let second = sse_run(
                SseState { line: first.line, current: first.current, out: Seq::empty() },
                decode_utf8(b),
            );
            let whole = sse_run(SseState { line, current: cur, out: Seq::empty() }, decode_utf8(a + b));
            &&& second.line == whole.line
            &&& second.current == whole.current
            &&& first.out + second.out == whole.out
        }),
{
    lemma_decode_concat(a, b);
    lemma_split_feeds_match_whole(line, cur, decode_utf8(a), decode_utf8(b));
}

} // verus!
