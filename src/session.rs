//! A session: the concurrent transfers of one content item.
//!
//! The caller runs the transfers in parallel and records each one's result
//! as it finishes, in whatever order that happens. The session says when the
//! item's files are complete, which error failed it, and which files a
//! failed session leaves behind.

use crate::transfer::TransferError;
use vstd::prelude::*;

verus! {

/// One transfer of a session.
#[derive(Clone, Debug, PartialEq, Eq)]
pub struct TransferSpec {
    /// A label for the progress display.
    pub label: String,
    /// The source URL.
    pub url: String,
    /// The local file.
    pub file_path: String,
}

/// The local files of a session's transfers, in order.
pub open spec fn paths_of(specs: Seq<TransferSpec>) -> Seq<Seq<char>> {
    specs.map_values(|t: TransferSpec| t.file_path@)
}

/// The texts of a list of strings.
pub open spec fn texts(v: Seq<String>) -> Seq<Seq<char>> {
    v.map_values(|s: String| s@)
}

/// A failed session: the first transfer that failed and its error.
#[derive(Clone, Copy, Debug, PartialEq, Eq, Structural)]
pub struct SessionError {
    /// The position of the transfer among the session's transfers.
    pub task: usize,
    /// Why it failed.
    pub error: TransferError,
}

/// Where one transfer of a session stands.
#[derive(Clone, Copy, Debug, PartialEq, Eq, Structural)]
pub enum SlotState {
    /// Still running.
    Running,
    /// Finished with the whole file.
    Done,
    /// Failed with this error.
    Failed(TransferError),
}

/// What can be said of a session so far.
#[derive(Clone, Copy, Debug, PartialEq, Eq, Structural)]
pub enum SessionVerdict {
    /// No transfer failed and some are still running.
    Pending,
    /// Every transfer finished with its whole file.
    Succeeded,
    /// A transfer failed; the session failed with the first such error.
    Failed(SessionError),
}

/// The results of a session's transfers as they come in.
pub struct Session {
    /// One entry per transfer, in the order of the transfer specs.
    pub slots: Vec<SlotState>,
    /// The first failure recorded, if any.
    pub first_error: Option<SessionError>,
}

/// The abstract state of a session.
pub struct SessionModel {
    pub slots: Seq<SlotState>,
    pub first_error: Option<SessionError>,
}

impl View for Session {
    type V = SessionModel;

    open spec fn view(&self) -> SessionModel {
        SessionModel { slots: self.slots@, first_error: self.first_error }
    }
}

impl SessionModel {
    /// A session of `n` transfers, all running.
    pub open spec fn fresh(n: nat) -> SessionModel {
        SessionModel { slots: Seq::new(n, |i: int| SlotState::Running), first_error: None }
    }

    /// The session after transfer `task` finished with `result`; a result
    /// for a transfer that is unknown or already finished changes nothing.
    pub open spec fn recorded(self, task: usize, result: Result<(), TransferError>) -> SessionModel {
        if task >= self.slots.len() || self.slots[task as int] != SlotState::Running {
            self
        } else {
            match result {
                Ok(()) => SessionModel {
                    slots: self.slots.update(task as int, SlotState::Done),
                    ..self
                },
                Err(e) => SessionModel {
                    slots: self.slots.update(task as int, SlotState::Failed(e)),
                    first_error: if self.first_error is None {
                        Some(SessionError { task, error: e })
                    } else {
                        self.first_error
                    },
                },
            }
        }
    }

    /// The session after the results arrived in this order.
    pub open spec fn recorded_all(self, results: Seq<(usize, Result<(), TransferError>)>) -> SessionModel
        decreases results.len(),
    {
        if results.len() == 0 {
            self
        } else {
            self.recorded(results[0].0, results[0].1).recorded_all(results.drop_first())
        }
    }

    /// What the session amounts to.
    pub open spec fn verdict(self) -> SessionVerdict {
        match self.first_error {
            Some(e) => SessionVerdict::Failed(e),
            None => if forall|i: int| 0 <= i < self.slots.len() ==> self.slots[i] == SlotState::Done {
                SessionVerdict::Succeeded
            } else {
                SessionVerdict::Pending
            },
        }
    }
}

impl Session {
    /// A session of `n` transfers, all running.
    pub fn new(n: usize) -> (s: Session)
        ensures
            s@ == SessionModel::fresh(n as nat),
    {
        let mut slots: Vec<SlotState> = Vec::new();
        let mut i: usize = 0;
        while i < n
            invariant
                i <= n,
                slots@ == Seq::new(i as nat, |j: int| SlotState::Running),
            decreases n - i,
        {
            slots.push(SlotState::Running);
            i = i + 1;
        }
        Session { slots, first_error: None }
    }

    /// Records that transfer `task` finished with `result`.
    pub fn record(&mut self, task: usize, result: Result<(), TransferError>)
        ensures
            final(self)@ == old(self)@.recorded(task, result),
    {
        if task >= self.slots.len() {
            return ;
        }
        match self.slots[task] {
            SlotState::Running => {},
            _ => {
                return ;
            },
        }
        match result {
            Ok(()) => {
                self.slots.set(task, SlotState::Done);
            },
            Err(e) => {
                self.slots.set(task, SlotState::Failed(e));
                if self.first_error.is_none() {
                    self.first_error = Some(SessionError { task, error: e });
                }
            },
        }
    }

    /// What the session amounts to so far.
    pub fn verdict(&self) -> (v: SessionVerdict)
        ensures
            v == self@.verdict(),
    {
        match self.first_error {
            Some(e) => SessionVerdict::Failed(e),
            None => {
                let mut i: usize = 0;
                while i < self.slots.len()
                    invariant
                        i <= self.slots.len(),
                        self.first_error is None,
                        forall|j: int| 0 <= j < i ==> self.slots[j] == SlotState::Done,
                    decreases self.slots.len() - i,
                {
                    match self.slots[i] {
                        SlotState::Done => {},
                        _ => {
                            assert(self@.slots[i as int] != SlotState::Done);
                            return SessionVerdict::Pending;
                        },
                    }
                    i = i + 1;
                }
                SessionVerdict::Succeeded
            },
        }
    }
}

/// Whether a transfer resumes from the file on disk: the file's size when
/// the resume policy is on and the file exists, `None` (start afresh)
/// otherwise.
pub fn resume_point(resume_policy: bool, on_disk: Option<u64>) -> (r: Option<u64>)
    ensures
        r == (if resume_policy {
            on_disk
        } else {
            None
        }),
{
    if resume_policy {
        on_disk
    } else {
        None
    }
}

/// The files of a successful session, in the order of its transfer specs.
pub fn completed_files(specs: &Vec<TransferSpec>) -> (r: Vec<String>)
    ensures
        texts(r@) == paths_of(specs@),
{
    let mut r: Vec<String> = Vec::new();
    let mut i: usize = 0;
    while i < specs.len()
        invariant
            i <= specs.len(),
            texts(r@) == paths_of(specs@.take(i as int)),
        decreases specs.len() - i,
    {
        let ghost before = r@;
        r.push(specs[i].file_path.clone());
        proof {
            assert(specs@.take(i + 1) =~= specs@.take(i as int).push(specs@[i as int]));
            assert(texts(r@) =~= texts(before).push(specs@[i as int].file_path@));
            assert(paths_of(specs@.take(i + 1)) =~= paths_of(specs@.take(i as int)).push(
                specs@[i as int].file_path@,
            ));
        }
        i = i + 1;
    }
    proof {
        assert(specs@.take(specs.len() as int) =~= specs@);
    }
    r
}

/// The files that a failed session deletes.
pub open spec fn discarded(specs: Seq<TransferSpec>, resume_policy: bool) -> Seq<Seq<char>> {
    if resume_policy {
        Seq::empty()
    } else {
        paths_of(specs)
    }
}

/// The files to delete after a session failed: all of its files when the
/// resume policy is off, so that the next attempt starts clean; none when it
/// is on, so that the next attempt resumes.
pub fn files_to_discard(specs: &Vec<TransferSpec>, resume_policy: bool) -> (r: Vec<String>)
    ensures
        texts(r@) == discarded(specs@, resume_policy),
{
    if resume_policy {
        Vec::new()
    } else {
        completed_files(specs)
    }
}

/// The files on disk after the files in `removed` were deleted.
pub open spec fn after_removing(disk: Set<Seq<char>>, removed: Seq<Seq<char>>) -> Set<Seq<char>> {
    disk.difference(removed.to_set())
}

/// Successful results for the transfers in `order`, in that order.
pub open spec fn successes(order: Seq<usize>) -> Seq<(usize, Result<(), TransferError>)> {
    order.map_values(|t: usize| (t, Ok::<(), TransferError>(())))
}

proof fn lemma_successes(s: SessionModel, order: Seq<usize>)
    requires
        s.slots.len() <= usize::MAX,
        s.first_error is None,
        forall|j: int|
            0 <= j < s.slots.len() ==> (s.slots[j] == SlotState::Running || s.slots[j]
                == SlotState::Done),
    ensures
        s.recorded_all(successes(order)).first_error is None,
        s.recorded_all(successes(order)).slots.len() == s.slots.len(),
        forall|j: int|
            0 <= j < s.slots.len() ==> #[trigger] s.recorded_all(successes(order)).slots[j] == (
            if order.contains(j as usize) {
                SlotState::Done
            } else {
                s.slots[j]
            }),
    decreases order.len(),
{
    if order.len() > 0 {
        let t = order[0];
        let rest = order.drop_first();
        assert(successes(order).drop_first() =~= successes(rest));
        assert(successes(order)[0] == (t, Ok::<(), TransferError>(())));
        let s1 = s.recorded(t, Ok(()));
        assert(s.recorded_all(successes(order)) == s1.recorded_all(successes(rest)));
        assert forall|j: int| 0 <= j < s.slots.len() implies s1.slots[j] == (if j == t as int {
            SlotState::Done
        } else {
            s.slots[j]
        }) by {}
        lemma_successes(s1, rest);
        assert forall|j: int| 0 <= j < s.slots.len() implies #[trigger] s.recorded_all(
            successes(order),
        ).slots[j] == (if order.contains(j as usize) {
            SlotState::Done
        } else {
            s.slots[j]
        }) by {
            if rest.contains(j as usize) {
                let k = choose|k: int| 0 <= k < rest.len() && rest[k] == j as usize;
                assert(order[k + 1] == j as usize);
            }
            if j == t as int {
                assert(order[0] == j as usize);
            }
            if order.contains(j as usize) && j != t as int {
                let k = choose|k: int| 0 <= k < order.len() && order[k] == j as usize;
                assert(rest[k - 1] == j as usize);
            }
        }
    }
}

/// When every transfer of a session succeeds, the order in which they
/// finish makes no difference: any two orders leave the same session, and
/// it has succeeded (its files are then those of [`completed_files`], in the
/// order of the specs).
pub proof fn session_success_ignores_completion_order(
    n: nat,
    first: Seq<usize>,
    second: Seq<usize>,
)
    requires
        n <= usize::MAX,
        forall|t: usize| t < n ==> first.contains(t) && second.contains(t),
    ensures
        SessionModel::fresh(n).recorded_all(successes(first)) == SessionModel::fresh(n).recorded_all(
            successes(second),
        ),
        SessionModel::fresh(n).recorded_all(successes(first)).verdict() == SessionVerdict::Succeeded,
{
    let s = SessionModel::fresh(n);
    lemma_successes(s, first);
    lemma_successes(s, second);
    let a = s.recorded_all(successes(first));
    let b = s.recorded_all(successes(second));
    assert forall|j: int| 0 <= j < n implies a.slots[j] == SlotState::Done && b.slots[j]
        == SlotState::Done by {
        assert(first.contains(j as usize) && second.contains(j as usize));
    }
    assert(a.slots =~= b.slots);
}

/// After a failed session, with the resume policy off none of the session's
/// files is left on disk; with it on, every file stays as it was.
pub proof fn failed_session_cleanup(disk: Set<Seq<char>>, specs: Seq<TransferSpec>, resume_policy: bool)
    ensures
        !resume_policy ==> forall|i: int|
            0 <= i < specs.len() ==> !after_removing(disk, discarded(specs, resume_policy)).contains(
                #[trigger] specs[i].file_path@,
            ),
        resume_policy ==> after_removing(disk, discarded(specs, resume_policy)) == disk,
{
    if resume_policy {
        assert(after_removing(disk, discarded(specs, resume_policy)) =~= disk);
    } else {
        assert forall|i: int| 0 <= i < specs.len() implies !after_removing(
            disk,
            discarded(specs, resume_policy),
        ).contains(#[trigger] specs[i].file_path@) by {
            assert(paths_of(specs)[i] == specs[i].file_path@);
            assert(paths_of(specs).to_set().contains(specs[i].file_path@));
        }
    }
}

} // verus!
