//! The activity log: a bounded first-in-first-out buffer of text lines.
use vstd::prelude::*;

use std::collections::VecDeque;

verus! {

/// The most lines the log keeps.
pub const LOG_CAPACITY: usize = 256;

/// The last `n` items of `s`, or all of them when there are no more than `n`.
pub open spec fn keep_last<A>(s: Seq<A>, n: nat) -> Seq<A> {
    if s.len() <= n {
        s
    } else {
        s.subrange(s.len() - n, s.len() as int)
    }
}

/// The log after appending `line`: the oldest line goes first once the log
/// is full.
pub open spec fn log_after(lines: Seq<Seq<char>>, line: Seq<char>) -> Seq<Seq<char>> {
    keep_last(lines.push(line), LOG_CAPACITY as nat)
}

/// The log after appending each of `added` in turn.
pub open spec fn log_after_all(lines: Seq<Seq<char>>, added: Seq<Seq<char>>) -> Seq<Seq<char>>
    decreases added.len(),
{
    if added.len() == 0 {
        lines
    } else {
        log_after(log_after_all(lines, added.drop_last()), added.last())
    }
}

/// Lines of text, oldest first. A log starts empty and holds at most
/// `LOG_CAPACITY` lines after every `push`.
pub struct LogBuffer {
    lines: VecDeque<String>,
}

impl View for LogBuffer {
    type V = Seq<Seq<char>>;

    closed spec fn view(&self) -> Seq<Seq<char>> {
        self.lines@.map_values(|s: String| s@)
    }
}

impl LogBuffer {
    pub fn new() -> (log: Self)
        ensures
            log@ == Seq::<Seq<char>>::empty(),
    {
        let log = LogBuffer { lines: VecDeque::new() };
        assert(log@ =~= Seq::<Seq<char>>::empty());
        log
    }

    pub fn len(&self) -> (n: usize)
        ensures
            n == self@.len(),
    {
        self.lines.len()
    }

    /// The `i`-th line, counting from the oldest.
    pub fn line(&self, i: usize) -> (line: &String)
        requires
            i < self@.len(),
        ensures
            line@ == self@[i as int],
    {
        &self.lines[i]
    }

    /// Appends a line, first dropping the oldest lines while the log is
    /// full.
    pub fn push(&mut self, line: String)
        ensures
            final(self)@ == log_after(old(self)@, line@),
            final(self)@.len() <= LOG_CAPACITY,
    {
        let ghost before = self.lines@;
        let ghost dropped: int = 0;
        while self.lines.len() >= LOG_CAPACITY
            invariant
                0 <= dropped <= before.len(),
                self.lines@ == before.subrange(dropped, before.len() as int),
                dropped == 0 || before.len() - dropped >= LOG_CAPACITY - 1,
            decreases self.lines@.len(),
        {
            self.lines.pop_front();
            proof {
                dropped = dropped + 1;
            }
        }
        proof {
            if before.len() < LOG_CAPACITY {
                assert(dropped == 0);
            }
        }
        let ghost line_view = line@;
        self.lines.push_back(line);
        proof {
            let views = before.map_values(|s: String| s@).push(line_view);
            assert(self.lines@ =~= before.subrange(dropped, before.len() as int).push(line));
            if before.len() >= LOG_CAPACITY {
                assert(self@ =~= views.subrange(
                    views.len() - LOG_CAPACITY,
                    views.len() as int,
                ));
            } else {
                assert(self@ =~= views);
            }
        }
    }
}

proof fn lemma_keep_last_push<A>(s: Seq<A>, x: A, n: nat)
    requires
        n > 0,
    ensures
        keep_last(keep_last(s, n).push(x), n) == keep_last(s.push(x), n),
{
    let k = keep_last(s, n);
    if s.len() <= n {
        assert(k == s);
    } else {
        let t = s.push(x);
        assert(k.push(x).len() == n + 1);
        assert(keep_last(k.push(x), n) =~= t.subrange(t.len() - n, t.len() as int));
    }
}

/// Appending lines one at a time to a log leaves exactly the last
/// `LOG_CAPACITY` of the old and new lines together, in their order: the
/// oldest are dropped first.
pub proof fn lemma_log_keeps_newest(lines: Seq<Seq<char>>, added: Seq<Seq<char>>)
    requires
        lines.len() <= LOG_CAPACITY,
    ensures
        log_after_all(lines, added) == keep_last(lines + added, LOG_CAPACITY as nat),
    decreases added.len(),
{
    if added.len() == 0 {
        assert(lines + added =~= lines);
    } else {
        lemma_log_keeps_newest(lines, added.drop_last());
        lemma_keep_last_push(lines + added.drop_last(), added.last(), LOG_CAPACITY as nat);
        assert((lines + added.drop_last()).push(added.last()) =~= lines + added);
    }
}

} // verus!
