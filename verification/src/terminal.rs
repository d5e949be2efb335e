//! The log sink: an ordered record of messages that keeps only the most recent.

use crate::text::lines_of;
use vstd::prelude::*;

verus! {

/// How many messages a terminal keeps.
pub const MAX_LOGS: usize = 1000;

/// What a terminal keeps of a history of messages: its last `MAX_LOGS`
/// entries, oldest first.
pub open spec fn retained(history: Seq<Seq<char>>) -> Seq<Seq<char>> {
    if history.len() <= MAX_LOGS {
        history
    } else {
        history.subrange(history.len() - MAX_LOGS, history.len() as int)
    }
}

/// What a terminal holds after `batch` has been logged, message by message,
/// on top of `start`.
pub open spec fn logged(start: Seq<Seq<char>>, batch: Seq<Seq<char>>) -> Seq<Seq<char>>
    decreases batch.len(),
{
    if batch.len() == 0 {
        start
    } else {
        logged(retained(start.push(batch.first())), batch.drop_first())
    }
}

/// An append-only record of log lines, capped at `MAX_LOGS` entries. When it
/// is full, the oldest line leaves to make room for the newest.
pub struct Terminal {
    logs: Vec<String>,
}

impl View for Terminal {
    type V = Seq<Seq<char>>;

    closed spec fn view(&self) -> Seq<Seq<char>> {
        lines_of(self.logs@)
    }
}

impl Terminal {
    #[verifier::type_invariant]
    spec fn within_cap(&self) -> bool {
        self.logs@.len() <= MAX_LOGS
    }

    /// An empty terminal.
    pub fn new() -> (terminal: Self)
        ensures
            terminal@ == Seq::<Seq<char>>::empty(),
    {
        let terminal = Terminal { logs: Vec::new() };
        assert(terminal@ =~= Seq::<Seq<char>>::empty());
        terminal
    }

    /// Appends `log` as the newest line and, if that overfills the terminal,
    /// drops the oldest one.
    pub fn add_log(&mut self, log: String)
        ensures
            final(self)@ == retained(old(self)@.push(log@)),
            final(self)@.len() <= MAX_LOGS,
    {
        proof {
            use_type_invariant(&*self);
        }
        let ghost before = self.logs@;
        let mut logs: Vec<String> = Vec::new();
        core::mem::swap(&mut self.logs, &mut logs);
        logs.push(log);
        if logs.len() > MAX_LOGS {
            let _ = logs.remove(0);
        }
        assert(lines_of(logs@) =~= retained(lines_of(before).push(log@)));
        self.logs = logs;
    }

    /// The number of lines held.
    pub fn len(&self) -> (n: usize)
        ensures
            n == self@.len(),
            n <= MAX_LOGS,
    {
        proof {
            use_type_invariant(self);
        }
        self.logs.len()
    }

    /// Appends every line of `lines` in turn, oldest first.
    pub fn add_logs(&mut self, lines: Vec<String>)
        ensures
            final(self)@ == logged(old(self)@, lines_of(lines@)),
            final(self)@.len() <= MAX_LOGS,
    {
        proof {
            use_type_invariant(&*self);
        }
        let ghost all = lines_of(lines@);
        let mut lines = lines;
        let mut rest: Vec<String> = Vec::new();
        // Take the lines from the back of a reversed copy, so that each is moved, not copied.
        while lines.len() > 0
            invariant
                rest@.len() + lines@.len() == all.len(),
                forall|i: int| 0 <= i < lines@.len() ==> #[trigger] lines@[i]@ == all[i],
                forall|i: int|
                    0 <= i < rest@.len() ==> #[trigger] rest@[i]@ == all[all.len() - 1 - i],
            decreases lines@.len(),
        {
            let line = lines.pop().unwrap();
            rest.push(line);
        }
        let ghost start = self@;
        assert(all.subrange(0, all.len() as int) =~= all);
        while rest.len() > 0
            invariant
                rest@.len() <= all.len(),
                forall|i: int|
                    0 <= i < rest@.len() ==> #[trigger] rest@[i]@ == all[all.len() - 1 - i],
                logged(self@, all.subrange(all.len() - rest@.len(), all.len() as int)) == logged(
                    start,
                    all,
                ),
                self@.len() <= MAX_LOGS,
            decreases rest@.len(),
        {
            let ghost before = self@;
            let ghost tail = all.subrange(all.len() - rest@.len(), all.len() as int);
            let line = rest.pop().unwrap();
            self.add_log(line);
            proof {
                assert(tail.first() == line@);
                assert(tail.drop_first() =~= all.subrange(
                    all.len() - rest@.len(),
                    all.len() as int,
                ));
            }
        }
        proof {
            assert(all.subrange(all.len() as int, all.len() as int) =~= Seq::<Seq<char>>::empty());
        }
    }

    /// A copy of every line held, oldest first.
    pub fn get_logs(&self) -> (logs: Vec<String>)
        ensures
            lines_of(logs@) == self@,
    {
        let mut logs: Vec<String> = Vec::new();
        let mut i: usize = 0;
        while i < self.logs.len()
            invariant
                i <= self.logs@.len(),
                lines_of(logs@) == lines_of(self.logs@).subrange(0, i as int),
            decreases self.logs@.len() - i,
        {
            let ghost before = lines_of(logs@);
            logs.push(self.logs[i].clone());
            assert(lines_of(logs@) =~= before.push(self.logs@[i as int]@));
            assert(before.push(self.logs@[i as int]@) =~= lines_of(self.logs@).subrange(0, i + 1));
            i += 1;
        }
        assert(lines_of(self.logs@).subrange(0, i as int) =~= lines_of(self.logs@));
        logs
    }
}

/// Logging one line is appending it and trimming.
pub proof fn lemma_logged_one(start: Seq<Seq<char>>, line: Seq<char>)
    ensures
        logged(start, seq![line]) == retained(start.push(line)),
{
    let batch = seq![line];
    assert(batch.drop_first() =~= Seq::<Seq<char>>::empty());
    assert(logged(retained(start.push(line)), batch.drop_first()) == retained(start.push(line)));
}

/// Logging two batches one after the other is logging them joined.
pub proof fn lemma_logged_concat(
    start: Seq<Seq<char>>,
    first: Seq<Seq<char>>,
    second: Seq<Seq<char>>,
)
    ensures
        logged(logged(start, first), second) == logged(start, first + second),
    decreases first.len(),
{
    if first.len() == 0 {
        assert(first + second =~= second);
    } else {
        lemma_logged_concat(retained(start.push(first.first())), first.drop_first(), second);
        assert((first + second).drop_first() =~= first.drop_first() + second);
    }
}

/// Trimming early changes nothing: the lines kept after one more message are
/// the same whether or not the history had been trimmed before.
pub proof fn lemma_retained_push(history: Seq<Seq<char>>, line: Seq<char>)
    ensures
        retained(retained(history).push(line)) == retained(history.push(line)),
{
    assert(retained(retained(history).push(line)) =~= retained(history.push(line)));
}

/// Logging a batch line by line on a trimmed history leaves exactly the last
/// `MAX_LOGS` lines of everything ever logged, in the order they came.
pub proof fn lemma_logged_is_retained(history: Seq<Seq<char>>, batch: Seq<Seq<char>>)
    ensures
        logged(retained(history), batch) == retained(history + batch),
    decreases batch.len(),
{
    if batch.len() == 0 {
        assert(history + batch =~= history);
    } else {
        lemma_retained_push(history, batch.first());
        lemma_logged_is_retained(history.push(batch.first()), batch.drop_first());
        assert(history.push(batch.first()) + batch.drop_first() =~= history + batch);
    }
}

/// Starting from an empty terminal, logging a batch leaves its last
/// `MAX_LOGS` lines: all of it if it is short, never more than the cap.
pub proof fn lemma_logged_from_empty(batch: Seq<Seq<char>>)
    ensures
        logged(Seq::empty(), batch) == retained(batch),
        logged(Seq::empty(), batch).len() == if batch.len() <= MAX_LOGS {
            batch.len()
        } else {
            MAX_LOGS as nat
        },
{
    assert(retained(Seq::<Seq<char>>::empty()) =~= Seq::<Seq<char>>::empty());
    lemma_logged_is_retained(Seq::empty(), batch);
    assert(Seq::<Seq<char>>::empty() + batch =~= batch);
}

} // verus!
