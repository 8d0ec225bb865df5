//! Bounded conversation history: an ordered log of role-tagged text entries
//! whose length never exceeds a fixed cap. When a push would exceed the cap,
//! the oldest entries are dropped from the front, preserving the relative
//! order of the survivors.

use vstd::prelude::*;

verus! {

/// Maximum number of entries the history retains (twenty exchanges of one
/// user entry and one assistant entry each).
pub const HISTORY_CAP: usize = 40;

/// Who produced an entry: transcription yields user entries, summarization
/// yields assistant entries.
#[derive(Clone, Copy, PartialEq, Eq, Structural, Debug)]
pub enum Role {
    User,
    Assistant,
}

/// One history entry: a role together with its text.
#[derive(Debug)]
pub struct HistoryEntry {
    pub role: Role,
    pub text: String,
}

/// The mathematical value of a history entry.
#[verifier::ext_equal]
pub struct EntryModel {
    pub role: Role,
    pub text: Seq<char>,
}

impl View for HistoryEntry {
    type V = EntryModel;

    open spec fn view(&self) -> EntryModel {
        EntryModel { role: self.role, text: self.text@ }
    }
}

/// Drops entries from the front of `s` until at most `HISTORY_CAP` remain.
pub open spec fn capped(s: Seq<EntryModel>) -> Seq<EntryModel> {
    if s.len() <= HISTORY_CAP {
        s
    } else {
        s.skip(s.len() - HISTORY_CAP)
    }
}

/// The history contents after a whole sequence of pushes, starting empty.
pub open spec fn history_of(pushes: Seq<EntryModel>) -> Seq<EntryModel>
    decreases pushes.len(),
{
    if pushes.len() == 0 {
        Seq::empty()
    } else {
        capped(history_of(pushes.drop_last()).push(pushes.last()))
    }
}

/// Bounded ordered log of role-tagged text entries.
pub struct ConversationHistory {
    entries: Vec<HistoryEntry>,
}

impl View for ConversationHistory {
    type V = Seq<EntryModel>;

    closed spec fn view(&self) -> Seq<EntryModel> {
        self.entries@.map_values(|e: HistoryEntry| e@)
    }
}

impl ConversationHistory {
    /// The cap holds at all times.
    pub open spec fn wf(&self) -> bool {
        self@.len() <= HISTORY_CAP
    }

    /// An empty history.
    pub fn new() -> (h: ConversationHistory)
        ensures
            h@ == Seq::<EntryModel>::empty(),
            h.wf(),
    {
        let h = ConversationHistory { entries: Vec::new() };
        proof {
            assert(h@ =~= Seq::<EntryModel>::empty());
        }
        h
    }

    /// Number of entries currently held.
    pub fn len(&self) -> (n: usize)
        ensures
            n == self@.len(),
    {
        self.entries.len()
    }

    /// A reference to the entry at position `i`, oldest first.
    pub fn entry(&self, i: usize) -> (e: &HistoryEntry)
        requires
            i < self@.len(),
        ensures
            e@ == self@[i as int],
    {
        &self.entries[i]
    }

    /// Appends an entry at the back; if the cap would be exceeded, the oldest
    /// entry is evicted from the front.
    pub fn push(&mut self, role: Role, text: String)
        requires
            old(self).wf(),
        ensures
            final(self)@ == capped(old(self)@.push(EntryModel { role, text: text@ })),
            final(self).wf(),
    {
        self.entries.push(HistoryEntry { role, text });
        if self.entries.len() > HISTORY_CAP {
            self.entries.remove(0);
            proof {
                let pushed = old(self)@.push(EntryModel { role, text: text@ });
                assert(self@ =~= pushed.skip(pushed.len() - HISTORY_CAP));
            }
        } else {
            proof {
                let pushed = old(self)@.push(EntryModel { role, text: text@ });
                assert(self@ =~= pushed);
            }
        }
    }
}

/// History cap law: after any sequence of pushes into an initially empty
/// history, at most `HISTORY_CAP` entries survive, and the survivors are
/// exactly the most recent pushes in their original relative order.
pub proof fn lemma_history_cap(pushes: Seq<EntryModel>)
    ensures
        history_of(pushes).len() <= HISTORY_CAP,
        history_of(pushes) == pushes.skip(
            if pushes.len() <= HISTORY_CAP {
                0
            } else {
                pushes.len() - HISTORY_CAP
            },
        ),
    decreases pushes.len(),
{
    if pushes.len() == 0 {
        assert(history_of(pushes) =~= pushes.skip(0));
    } else {
        let prefix = pushes.drop_last();
        lemma_history_cap(prefix);
        if pushes.len() <= HISTORY_CAP {
            assert(history_of(pushes) =~= pushes.skip(0));
        } else {
            assert(history_of(pushes) =~= pushes.skip(pushes.len() - HISTORY_CAP));
        }
    }
}

} // verus!
