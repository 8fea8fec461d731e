//! Bounded tails of the app's stdout and stderr lines, kept for failure
//! diagnostics.
use std::collections::VecDeque;

use vstd::prelude::*;

verus! {

/// The last `n` elements of `s`, or all of `s` when it is shorter.
pub open spec fn keep_tail<A>(s: Seq<A>, n: nat) -> Seq<A> {
    if s.len() <= n {
        s
    } else {
        s.subrange(s.len() - n, s.len() as int)
    }
}

/// The lines joined with `sep` between consecutive lines.
pub open spec fn join_with(lines: Seq<Seq<char>>, sep: Seq<char>) -> Seq<char>
    decreases lines.len(),
{
    if lines.len() == 0 {
        Seq::empty()
    } else if lines.len() == 1 {
        lines[0]
    } else {
        join_with(lines.drop_last(), sep) + sep + lines.last()
    }
}

/// The text shown for a tail: its lines joined by newlines, or
/// `<no output captured>` when there are none.
pub open spec fn rendered_tail(lines: Seq<Seq<char>>) -> Seq<char> {
    if lines.len() == 0 {
        "<no output captured>"@
    } else {
        join_with(lines, "\n"@)
    }
}

/// The contents of a buffer of capacity `n` into which the lines of
/// `history` were pushed one after another, starting empty.
pub open spec fn replayed(history: Seq<Seq<char>>, n: nat) -> Seq<Seq<char>>
    decreases history.len(),
{
    if history.len() == 0 {
        Seq::empty()
    } else {
        keep_tail(replayed(history.drop_last(), n).push(history.last()), n)
    }
}

/// The most recent lines of one output stream, at most `max_lines` of them.
#[derive(Debug)]
pub struct StartupLogBuffer {
    lines: VecDeque<String>,
    max_lines: usize,
}

impl View for StartupLogBuffer {
    /// The retained lines, oldest first.
    type V = Seq<Seq<char>>;

    closed spec fn view(&self) -> Seq<Seq<char>> {
        self.lines@.map_values(|l: String| l@)
    }
}

impl StartupLogBuffer {
    #[verifier::type_invariant]
    closed spec fn wf(self) -> bool {
        self.lines@.len() <= self.max_lines
    }

    /// How many lines the buffer retains at most.
    pub closed spec fn capacity(self) -> nat {
        self.max_lines as nat
    }

    /// An empty buffer that retains up to `max_lines` lines; with
    /// `max_lines == 0` it retains nothing.
    pub fn new(max_lines: usize) -> (b: StartupLogBuffer)
        ensures
            b@ == Seq::<Seq<char>>::empty(),
            b.capacity() == max_lines,
    {
        let b = StartupLogBuffer { lines: VecDeque::new(), max_lines };
        assert(b@ =~= Seq::<Seq<char>>::empty());
        b
    }

    /// How many lines the buffer retains at most.
    pub fn max_lines(&self) -> (n: usize)
        ensures
            n == self.capacity(),
    {
        self.max_lines
    }

    /// Records `line`, dropping the oldest line when the buffer is full.
    pub fn push(&mut self, line: &str)
        ensures
            final(self)@ == keep_tail(old(self)@.push(line@), old(self).capacity()),
            final(self).capacity() == old(self).capacity(),
            final(self)@.len() <= final(self).capacity(),
            final(self)@.len() == if old(self)@.len() < old(self).capacity() {
                old(self)@.len() + 1
            } else {
                old(self).capacity()
            },
            forall|i: int|
                0 <= i < final(self)@.len() ==> #[trigger] final(self)@[i] == old(self)@.push(
                    line@,
                )[old(self)@.len() + 1 - final(self)@.len() + i],
    {
        proof {
            use_type_invariant(&*self);
        }
        let ghost before = self@;
        if self.max_lines == 0 {
            assert(keep_tail(before.push(line@), 0) =~= Seq::<Seq<char>>::empty());
            assert(self@ =~= Seq::<Seq<char>>::empty());
            return;
        }
        let mut lines: VecDeque<String> = VecDeque::new();
        std::mem::swap(&mut lines, &mut self.lines);
        if lines.len() == self.max_lines {
            let _ = lines.pop_front();
        }
        lines.push_back(line.to_owned());
        self.lines = lines;
        assert(self@ =~= keep_tail(before.push(line@), self.max_lines as nat));
        proof {
            lemma_keep_tail_counts(before.push(line@), self.max_lines as nat);
        }
    }

    /// The retained lines joined by newlines, or `<no output captured>`.
    pub fn render(&self) -> (r: String)
        ensures
            r@ == rendered_tail(self@),
            self@.len() == 0 ==> r@ == "<no output captured>"@,
            self@.len() > 0 ==> lays_out(self@, r@),
    {
        if self.lines.len() == 0 {
            return "<no output captured>".to_owned();
        }
        let ghost v = self@;
        let mut out = String::new();
        let mut i: usize = 0;
        while i < self.lines.len()
            invariant
                v == self@,
                v.len() == self.lines@.len(),
                v.len() > 0,
                i <= v.len(),
                i == 0 ==> out@ == Seq::<char>::empty(),
                i > 0 ==> out@ == join_with(v.take(i as int), "\n"@),
            decreases v.len() - i,
        {
            if i > 0 {
                out.append("\n");
            }
            out.append(self.lines[i].as_str());
            proof {
                assert(v.take(i + 1).drop_last() =~= v.take(i as int));
                assert(v.take(i + 1).last() == v[i as int]);
            }
            i = i + 1;
        }
        assert(v.take(v.len() as int) =~= v);
        proof {
            lemma_render_keeps_every_line(v);
        }
        out
    }
}

/// The stdout and stderr tails of one app start.
#[derive(Debug)]
pub struct StartupLogs {
    /// Recent stdout lines.
    pub stdout: StartupLogBuffer,
    /// Recent stderr lines.
    pub stderr: StartupLogBuffer,
}

impl StartupLogs {
    /// Two empty buffers, each retaining up to `max_lines` lines.
    pub fn new(max_lines: usize) -> (logs: StartupLogs)
        ensures
            logs.stdout@ == Seq::<Seq<char>>::empty(),
            logs.stderr@ == Seq::<Seq<char>>::empty(),
            logs.stdout.capacity() == max_lines,
            logs.stderr.capacity() == max_lines,
    {
        StartupLogs { stdout: StartupLogBuffer::new(max_lines), stderr: StartupLogBuffer::new(max_lines) }
    }

    /// The rendered stdout tail.
    pub fn stdout_tail(&self) -> (r: String)
        ensures
            r@ == rendered_tail(self.stdout@),
    {
        self.stdout.render()
    }

    /// The rendered stderr tail.
    pub fn stderr_tail(&self) -> (r: String)
        ensures
            r@ == rendered_tail(self.stderr@),
    {
        self.stderr.render()
    }
}


/// Trimming to the last `n` elements before appending one more changes
/// nothing once the result is trimmed again.
pub proof fn lemma_keep_tail_push<A>(s: Seq<A>, x: A, n: nat)
    ensures
        keep_tail(keep_tail(s, n).push(x), n) == keep_tail(s.push(x), n),
{
    let t = keep_tail(s, n);
    if s.len() > n {
        assert(keep_tail(t.push(x), n) =~= keep_tail(s.push(x), n));
    } else {
        assert(t == s);
    }
}

/// A buffer of capacity `n` that has been fed the lines of `history`, in
/// order and starting empty, holds exactly the last `n` of them (all of them
/// when there are fewer); a buffer of capacity zero holds none.
pub proof fn lemma_buffer_holds_recent_tail(history: Seq<Seq<char>>, n: nat)
    ensures
        replayed(history, n) == keep_tail(history, n),
        n == 0 ==> replayed(history, n).len() == 0,
    decreases history.len(),
{
    if history.len() > 0 {
        let prefix = history.drop_last();
        lemma_buffer_holds_recent_tail(prefix, n);
        lemma_keep_tail_push(prefix, history.last(), n);
        assert(prefix.push(history.last()) =~= history);
    }
}


/// A buffer of capacity `n` fed the lines of `history` in order, starting
/// empty, holds `min(n, k)` lines for `k` lines pushed (so all of them while
/// `k <= n`), and its `i`-th line is line `k - min(n, k) + i` of the history.
pub proof fn lemma_buffer_counts(history: Seq<Seq<char>>, n: nat)
    ensures
        replayed(history, n).len() == if history.len() <= n { history.len() } else { n },
        forall|i: int| 0 <= i < replayed(history, n).len() ==> #[trigger] replayed(history, n)[i]
            == history[history.len() - replayed(history, n).len() + i],
{
    lemma_buffer_holds_recent_tail(history, n);
    lemma_keep_tail_counts(history, n);
}

/// Keeping the tail of `s` with capacity `n` keeps `min(n, |s|)` elements,
/// the last ones of `s`, in order.
pub proof fn lemma_keep_tail_counts<A>(s: Seq<A>, n: nat)
    ensures
        keep_tail(s, n).len() == if s.len() <= n { s.len() } else { n },
        forall|i: int| 0 <= i < keep_tail(s, n).len() ==> #[trigger] keep_tail(s, n)[i]
            == s[s.len() - keep_tail(s, n).len() + i],
{
}

/// The rendered tail of no lines is `<no output captured>`; of one line, that
/// line; and rendering one more line appends a newline and that line to the
/// rendering of the lines before it, for any number of lines.
pub proof fn lemma_render_appends_line(lines: Seq<Seq<char>>)
    ensures
        lines.len() == 0 ==> rendered_tail(lines) == "<no output captured>"@,
        lines.len() == 1 ==> rendered_tail(lines) == lines[0],
        lines.len() >= 2 ==> rendered_tail(lines) == rendered_tail(lines.drop_last()) + "\n"@
            + lines.last(),
{
}

/// The rendering of a non-empty tail is as long as all its lines together
/// plus one newline between each two of them.
pub proof fn lemma_render_length(lines: Seq<Seq<char>>)
    requires
        lines.len() >= 1,
    ensures
        rendered_tail(lines).len() == total_length(lines) + lines.len() - 1,
    decreases lines.len(),
{
    reveal_strlit("\n");
    lemma_render_appends_line(lines);
    if lines.len() == 1 {
        assert(total_length(lines.drop_last()) == 0);
    } else {
        lemma_render_length(lines.drop_last());
    }
}

/// The summed lengths of `lines`.
pub open spec fn total_length(lines: Seq<Seq<char>>) -> nat
    decreases lines.len(),
{
    if lines.len() == 0 {
        0
    } else {
        total_length(lines.drop_last()) + lines.last().len()
    }
}

/// Where line `i` starts in the rendering of `lines`: after all the lines
/// before it, each followed by one newline.
pub open spec fn line_start(lines: Seq<Seq<char>>, i: int) -> int {
    total_length(lines.take(i)) + i
}

/// `r` is `lines` laid out one after another with a newline between each
/// two of them: every line stands at its `line_start`, a newline just before
/// each line but the first, and `r` holds nothing else.
pub open spec fn lays_out(lines: Seq<Seq<char>>, r: Seq<char>) -> bool {
    &&& r.len() == total_length(lines) + lines.len() - 1
    &&& forall|i: int|
        0 <= i < lines.len() ==> line_start(lines, i) + lines[i].len() <= r.len()
    &&& forall|i: int|
        0 <= i < lines.len() ==> r.subrange(line_start(lines, i), line_start(lines, i) + lines[i].len())
            == #[trigger] lines[i]
    &&& forall|i: int| 0 < i < lines.len() ==> r[#[trigger] line_start(lines, i) - 1] == '\n'
}

/// The rendering of a non-empty tail holds every retained line, whatever
/// their number: line `i` stands at `line_start(lines, i)`, a newline stands
/// just before each line but the first, and nothing else is added.
pub proof fn lemma_render_keeps_every_line(lines: Seq<Seq<char>>)
    requires
        lines.len() >= 1,
    ensures
        lays_out(lines, rendered_tail(lines)),
    decreases lines.len(),
{
    reveal_strlit("\n");
    let n = lines.len();
    if n == 1 {
        let r = rendered_tail(lines);
        assert(lines.take(0) =~= Seq::<Seq<char>>::empty());
        assert(line_start(lines, 0) == 0);
        assert(lines.drop_last().len() == 0);
        assert(total_length(lines) == lines[0].len());
        assert(r.subrange(0, lines[0].len() as int) =~= lines[0]);
    } else {
        let prev = lines.drop_last();
        lemma_render_keeps_every_line(prev);
        lemma_render_appends_line(lines);
        assert("\n"@ =~= seq!['\n']);
        assert(prev.push(lines.last()) =~= lines);
        lemma_lays_out_push(prev, lines.last(), rendered_tail(prev));
    }
}

/// Laying out one more line after a newline keeps the layout of the lines
/// before it.
proof fn lemma_lays_out_push(prev: Seq<Seq<char>>, last: Seq<char>, rp: Seq<char>)
    requires
        prev.len() >= 1,
        lays_out(prev, rp),
    ensures
        lays_out(prev.push(last), rp + seq!['\n'] + last),
{
    let lines = prev.push(last);
    let r = rp + seq!['\n'] + last;
    let n = lines.len();
    assert(lines.drop_last() =~= prev);
    assert(total_length(lines) == total_length(prev) + last.len());
    assert(lines.take(n - 1) =~= prev);
    assert(line_start(lines, n - 1) == rp.len() + 1);
    assert forall|i: int| 0 <= i < n - 1 implies line_start(lines, i) == line_start(prev, i)
        && #[trigger] lines[i] == prev[i] by {
        assert(lines.take(i) =~= prev.take(i));
    }
    assert forall|i: int| 0 <= i < n implies line_start(lines, i) + lines[i].len() <= r.len() by {
        if i < n - 1 {
            assert(line_start(lines, i) == line_start(prev, i) && lines[i] == prev[i]);
        }
    }
    assert forall|i: int| 0 <= i < n implies r.subrange(
        line_start(lines, i),
        line_start(lines, i) + lines[i].len(),
    ) == #[trigger] lines[i] by {
        if i < n - 1 {
            assert(line_start(lines, i) == line_start(prev, i) && lines[i] == prev[i]);
            let a = line_start(prev, i);
            let b = a + prev[i].len();
            assert(rp.subrange(a, b) == prev[i]);
            assert(r.subrange(a, b) =~= rp.subrange(a, b));
        } else {
            assert(r.subrange(rp.len() as int + 1, r.len() as int) =~= last);
        }
    }
    assert forall|i: int| 0 < i < n implies r[#[trigger] line_start(lines, i) - 1] == '\n' by {
        if i < n - 1 {
            assert(line_start(lines, i) == line_start(prev, i) && lines[i] == prev[i]);
            assert(rp[line_start(prev, i) - 1] == '\n');
        } else {
            assert(r[rp.len() as int] == '\n');
        }
    }
}

} // verus!
