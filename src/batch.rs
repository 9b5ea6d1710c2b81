//! Batches: items processed one after another, each to its own outcome.

use vstd::prelude::*;

verus! {

/// How one item of a batch ended.
#[derive(Clone, Copy, Debug, PartialEq, Eq, Structural)]
pub enum ItemOutcome {
    Success,
    Failed,
}

/// The status of a whole batch.
#[derive(Clone, Copy, Debug, PartialEq, Eq, Structural)]
pub enum BatchStatus {
    /// No item failed.
    Success,
    /// Some items failed and some succeeded.
    PartialFailure,
    /// Items failed and none succeeded.
    TotalFailure,
}

/// The status of a batch whose items ended as `outcomes`.
pub open spec fn batch_status(outcomes: Seq<ItemOutcome>) -> BatchStatus {
    if !outcomes.contains(ItemOutcome::Failed) {
        BatchStatus::Success
    } else if !outcomes.contains(ItemOutcome::Success) {
        BatchStatus::TotalFailure
    } else {
        BatchStatus::PartialFailure
    }
}

proof fn lemma_push_contains(s: Seq<ItemOutcome>, v: ItemOutcome, x: ItemOutcome)
    ensures
        s.push(v).contains(x) <==> (s.contains(x) || v == x),
{
    if s.contains(x) {
        let k = choose|k: int| 0 <= k < s.len() && s[k] == x;
        assert(s.push(v)[k] == x);
    }
    if v == x {
        assert(s.push(v)[s.len() as int] == x);
    }
    if s.push(v).contains(x) {
        let k = choose|k: int| 0 <= k < s.push(v).len() && s.push(v)[k] == x;
        if k < s.len() {
            assert(s[k] == x);
        }
    }
}

/// The status of a batch: `Success` when no item failed, `TotalFailure`
/// when items failed and none succeeded, `PartialFailure` otherwise.
pub fn aggregate(outcomes: &Vec<ItemOutcome>) -> (r: BatchStatus)
    ensures
        r == batch_status(outcomes@),
{
    let mut failed: bool = false;
    let mut succeeded: bool = false;
    let mut i: usize = 0;
    while i < outcomes.len()
        invariant
            i <= outcomes.len(),
            failed <==> outcomes@.take(i as int).contains(ItemOutcome::Failed),
            succeeded <==> outcomes@.take(i as int).contains(ItemOutcome::Success),
        decreases outcomes.len() - i,
    {
        proof {
            assert(outcomes@.take(i + 1) =~= outcomes@.take(i as int).push(outcomes@[i as int]));
            lemma_push_contains(outcomes@.take(i as int), outcomes@[i as int], ItemOutcome::Failed);
            lemma_push_contains(outcomes@.take(i as int), outcomes@[i as int], ItemOutcome::Success);
        }
        match outcomes[i] {
            ItemOutcome::Failed => {
                failed = true;
            },
            ItemOutcome::Success => {
                succeeded = true;
            },
        }
        i = i + 1;
    }
    proof {
        assert(outcomes@.take(i as int) =~= outcomes@);
    }
    if !failed {
        BatchStatus::Success
    } else if !succeeded {
        BatchStatus::TotalFailure
    } else {
        BatchStatus::PartialFailure
    }
}

/// The process exit code for a batch status.
pub fn exit_code(status: BatchStatus) -> (r: i32)
    ensures
        r == match status {
            BatchStatus::Success => 0i32,
            BatchStatus::TotalFailure => 1i32,
            BatchStatus::PartialFailure => 2i32,
        },
{
    match status {
        BatchStatus::Success => 0,
        BatchStatus::TotalFailure => 1,
        BatchStatus::PartialFailure => 2,
    }
}

/// Where one item of a batch stands.
#[derive(Clone, Copy, Debug, PartialEq, Eq, Structural)]
pub enum ItemState {
    Pending,
    Downloading,
    Merging,
    Completed,
    Failed,
    /// Left out, because its output exists and is not to be replaced.
    Skipped,
}

/// What happened to an item.
#[derive(Clone, Copy, Debug, PartialEq, Eq, Structural)]
pub enum ItemEvent {
    /// Its transfers were started.
    Started,
    /// It was left out before any transfer.
    Declined,
    /// Its session succeeded.
    Downloaded,
    /// Its merge succeeded.
    Merged,
    /// Its description, its session or its merge failed.
    Failed,
}

/// The transition of an item on an event; terminal states stay, and an
/// event that does not fit the state changes nothing.
pub open spec fn item_next(s: ItemState, e: ItemEvent) -> ItemState {
    match (s, e) {
        (ItemState::Pending, ItemEvent::Started) => ItemState::Downloading,
        (ItemState::Pending, ItemEvent::Declined) => ItemState::Skipped,
        (ItemState::Pending, ItemEvent::Failed) => ItemState::Failed,
        (ItemState::Downloading, ItemEvent::Downloaded) => ItemState::Merging,
        (ItemState::Downloading, ItemEvent::Failed) => ItemState::Failed,
        (ItemState::Merging, ItemEvent::Merged) => ItemState::Completed,
        (ItemState::Merging, ItemEvent::Failed) => ItemState::Failed,
        _ => s,
    }
}

impl ItemState {
    /// The state after event `e`.
    pub fn advance(self, e: ItemEvent) -> (r: ItemState)
        ensures
            r == item_next(self, e),
    {
        match (self, e) {
            (ItemState::Pending, ItemEvent::Started) => ItemState::Downloading,
            (ItemState::Pending, ItemEvent::Declined) => ItemState::Skipped,
            (ItemState::Pending, ItemEvent::Failed) => ItemState::Failed,
            (ItemState::Downloading, ItemEvent::Downloaded) => ItemState::Merging,
            (ItemState::Downloading, ItemEvent::Failed) => ItemState::Failed,
            (ItemState::Merging, ItemEvent::Merged) => ItemState::Completed,
            (ItemState::Merging, ItemEvent::Failed) => ItemState::Failed,
            _ => self,
        }
    }

    /// The item's outcome, once it ended with one.
    pub fn outcome(self) -> (r: Option<ItemOutcome>)
        ensures
            r == match self {
                ItemState::Completed => Some(ItemOutcome::Success),
                ItemState::Failed => Some(ItemOutcome::Failed),
                _ => None::<ItemOutcome>,
            },
    {
        match self {
            ItemState::Completed => Some(ItemOutcome::Success),
            ItemState::Failed => Some(ItemOutcome::Failed),
            _ => None,
        }
    }
}

/// The outcomes of a batch so far.
pub struct Batch {
    pub outcomes: Vec<ItemOutcome>,
}

impl Batch {
    pub fn new() -> (b: Batch)
        ensures
            b.outcomes@ == Seq::<ItemOutcome>::empty(),
    {
        Batch { outcomes: Vec::new() }
    }

    /// Records how an item ended; an item that did not end with an outcome
    /// (skipped, or not finished) is not counted.
    pub fn finish_item(&mut self, state: ItemState)
        ensures
            final(self).outcomes@ == match state {
                ItemState::Completed => old(self).outcomes@.push(ItemOutcome::Success),
                ItemState::Failed => old(self).outcomes@.push(ItemOutcome::Failed),
                _ => old(self).outcomes@,
            },
    {
        match state.outcome() {
            Some(o) => self.outcomes.push(o),
            None => {},
        }
    }

    /// The batch's status so far.
    pub fn status(&self) -> (r: BatchStatus)
        ensures
            r == batch_status(self.outcomes@),
    {
        aggregate(&self.outcomes)
    }
}

/// An item ends at most once: its terminal states are kept whatever
/// happens, and every path from `Pending` that reaches an outcome passes
/// through the states in the order pending, downloading, merging.
pub proof fn item_terminal_states_stay(s: ItemState, e: ItemEvent)
    ensures
        (s == ItemState::Completed || s == ItemState::Failed || s == ItemState::Skipped)
            ==> item_next(s, e) == s,
        item_next(s, e) == ItemState::Completed ==> s == ItemState::Merging || s
            == ItemState::Completed,
        item_next(s, e) == ItemState::Merging ==> s == ItemState::Downloading || s
            == ItemState::Merging,
{
}

} // verus!
