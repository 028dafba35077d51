//! The bounded history of received messages, newest first.

use std::collections::VecDeque;
use vstd::prelude::*;
use crate::log::{LogEntryView, OscLogEntry};

verus! {

/// The most records the history keeps.
pub const HISTORY_CAPACITY: usize = 100;

/// The models of a sequence of records, in order.
pub open spec fn entries_view(entries: Seq<OscLogEntry>) -> Seq<LogEntryView> {
    Seq::new(entries.len(), |i: int| entries[i]@)
}

/// The history `h` after `entry` arrived: the entry goes to the front, and
/// the oldest record leaves where that makes more than the capacity.
pub open spec fn pushed(h: Seq<LogEntryView>, entry: LogEntryView) -> Seq<LogEntryView> {
    let all = seq![entry] + h;
    if all.len() > HISTORY_CAPACITY {
        all.drop_last()
    } else {
        all
    }
}

/// The history `h` after each of `entries` arrived, in order.
pub open spec fn pushed_all(h: Seq<LogEntryView>, entries: Seq<LogEntryView>) -> Seq<LogEntryView>
    decreases entries.len(),
{
    if entries.len() == 0 {
        h
    } else {
        pushed(pushed_all(h, entries.drop_last()), entries.last())
    }
}

/// A bounded first-in, first-out record of the latest messages. Its model is
/// the sequence of its records, newest first.
pub struct History {
    entries: VecDeque<OscLogEntry>,
}

impl View for History {
    type V = Seq<LogEntryView>;

    closed spec fn view(&self) -> Seq<LogEntryView> {
        entries_view(self.entries@)
    }
}

impl History {
    #[verifier::type_invariant]
    spec fn bounded(self) -> bool {
        self.entries@.len() <= HISTORY_CAPACITY
    }

    /// An empty history.
    pub fn new() -> (r: History)
        ensures
            r@ == Seq::<LogEntryView>::empty(),
    {
        let r = History { entries: VecDeque::with_capacity(HISTORY_CAPACITY) };
        assert(r@ =~= Seq::<LogEntryView>::empty());
        r
    }

    /// The number of records kept.
    pub fn len(&self) -> (n: usize)
        ensures
            n == self@.len(),
            n <= HISTORY_CAPACITY,
    {
        proof {
            use_type_invariant(self);
        }
        self.entries.len()
    }

    /// Puts `entry` at the front and drops the oldest record where the
    /// history was full.
    pub fn push(&mut self, entry: OscLogEntry)
        ensures
            final(self)@ == pushed(old(self)@, entry@),
            final(self)@.len() <= HISTORY_CAPACITY,
            final(self)@[0] == entry@,
    {
        proof {
            use_type_invariant(&*self);
        }
        let mut entries: VecDeque<OscLogEntry> = VecDeque::new();
        std::mem::swap(&mut self.entries, &mut entries);
        if entries.len() >= HISTORY_CAPACITY {
            entries.pop_back();
        }
        entries.push_front(entry);
        std::mem::swap(&mut self.entries, &mut entries);
        assert(self@ =~= pushed(old(self)@, entry@));
    }

    /// The records as of now, newest first.
    pub fn snapshot(&self) -> (r: Vec<OscLogEntry>)
        ensures
            entries_view(r@) == self@,
            r@.len() <= HISTORY_CAPACITY,
    {
        proof {
            use_type_invariant(self);
        }
        let mut out: Vec<OscLogEntry> = Vec::new();
        let mut i: usize = 0;
        while i < self.entries.len()
            invariant
                i <= self.entries@.len(),
                out@.len() == i,
                forall|k: int| 0 <= k < i ==> (#[trigger] out@[k])@ == self.entries@[k]@,
            decreases self.entries@.len() - i,
        {
            out.push(self.entries[i].duplicate());
            i += 1;
        }
        assert(entries_view(out@) =~= self@);
        out
    }
}

/// However many records arrive, the history never holds more than its
/// capacity, and after at least one arrival the latest record is at the
/// front.
pub proof fn lemma_history_bounded(h: Seq<LogEntryView>, entries: Seq<LogEntryView>)
    requires
        h.len() <= HISTORY_CAPACITY,
    ensures
        pushed_all(h, entries).len() <= HISTORY_CAPACITY,
        entries.len() > 0 ==> pushed_all(h, entries)[0] == entries.last(),
    decreases entries.len(),
{
    if entries.len() > 0 {
        lemma_history_bounded(h, entries.drop_last());
    }
}

} // verus!
