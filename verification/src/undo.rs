//! The undo history of one turtle: an append-only log of state snapshots
//! that makes exact rollback possible.
//!
//! Several commands (a teleport, an absolute heading) cannot be inverted
//! from their output alone, so each entry stores the full state snapshot
//! taken before the mutation, together with the applied request and the
//! emitted draw command — the latter tells the renderer which artifact to
//! retract, and whether it was a durable stamp.
use vstd::prelude::*;

use crate::command::DrawRequest;
use crate::generate::{CurrentTurtleState, DrawCommand};

verus! {

/// One history entry: the snapshot taken before a mutating request was
/// applied, the request itself, and the draw command it emitted.
#[derive(Debug, Clone, PartialEq)]
pub struct UndoEntry {
    pub pre_state: CurrentTurtleState,
    pub request: DrawRequest,
    pub command: Option<DrawCommand>,
}

/// The append-only per-turtle history.  There is no built-in bound on its
/// length; callers may truncate it to cap memory.
#[derive(Debug)]
pub struct UndoLog {
    entries: Vec<UndoEntry>,
}

impl View for UndoLog {
    type V = Seq<UndoEntry>;

    closed spec fn view(&self) -> Seq<UndoEntry> {
        self.entries@
    }
}

impl UndoLog {
    /// An empty history.
    pub fn new() -> (l: Self)
        ensures
            l@.len() == 0,
    {
        UndoLog { entries: Vec::new() }
    }

    /// Appends one entry: the snapshot taken before the mutation, the
    /// applied request, and the emitted draw command.
    pub fn record(
        &mut self,
        pre_state: CurrentTurtleState,
        request: DrawRequest,
        command: Option<DrawCommand>,
    )
        ensures
            final(self)@ == old(self)@.push(UndoEntry { pre_state, request, command }),
    {
        self.entries.push(UndoEntry { pre_state, request, command });
    }

    /// Rolls back the most recent entry: restores `state` to the stored
    /// snapshot exactly and hands the popped entry back so the caller can
    /// retract the rendered artifact.  On an empty history this is a no-op.
    pub fn undo(&mut self, state: &mut CurrentTurtleState) -> (popped: Option<UndoEntry>)
        ensures
            old(self)@.len() == 0 ==> final(self)@ == old(self)@ && *final(state) == *old(state)
                && popped is None,
            old(self)@.len() > 0 ==> final(self)@ == old(self)@.drop_last() && *final(state)
                == old(self)@.last().pre_state && (popped matches Some(e) && e == old(self)@.last()),
    {
        match self.entries.pop() {
            Some(entry) => {
                *state = entry.pre_state;
                Some(entry)
            },
            None => None,
        }
    }

    /// The number of entries available to undo.
    pub fn undo_count(&self) -> (n: usize)
        ensures
            n == self@.len(),
    {
        self.entries.len()
    }

    /// Rolling back right after recording restores the history to what it
    /// was, and what `undo` then restores is exactly the snapshot that
    /// `record` stored: after any run of mutations, each undo steps back
    /// to the state before the latest one.
    pub proof fn lemma_record_then_undo(history: Seq<UndoEntry>, e: UndoEntry)
        ensures
            history.push(e).drop_last() == history,
            history.push(e).last() == e,
    {
        assert(history.push(e).drop_last() =~= history);
    }

    /// Drops the oldest entries until at most `keep` remain, capping the
    /// memory the history holds; the newest entries stay undoable.
    pub fn truncate_oldest(&mut self, keep: usize)
        ensures
            final(self)@ == old(self)@.skip(
                if old(self)@.len() <= keep {
                    0
                } else {
                    old(self)@.len() - keep
                },
            ),
    {
        let n = self.entries.len();
        if n <= keep {
            proof {
                assert(self.entries@.skip(0) =~= self.entries@);
            }
            return ;
        }
        let drop_n = n - keep;
        let mut i: usize = 0;
        while i < drop_n
            invariant
                i <= drop_n,
                drop_n == old(self)@.len() - keep,
                old(self)@.len() >= keep,
                self.entries@ == old(self)@.skip(i as int),
            decreases drop_n - i,
        {
            proof {
                assert(self.entries@.remove(0) =~= old(self)@.skip(i as int + 1));
            }
            let _ = self.entries.remove(0);
            i += 1;
        }
    }
}

} // verus!
