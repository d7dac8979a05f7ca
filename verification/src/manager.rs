//! Limited access to the coordinator that runs programs.

use crate::error::CoordinatorManagerError;
use crate::handle::{reclaim, share};
use std::sync::Arc;
use vstd::prelude::*;

verus! {

/// How long a session may be without jobs before it gives up its coordinator.
pub const IDLE_TIMEOUT_SECS: u64 = 60;

/// How many jobs may run at once.
pub const N_PARALLEL: usize = 2;

/// How many kinds of jobs there are.
pub const N_KINDS: usize = 1;

/// The kind of a job that runs a program.
pub const KIND_EXECUTE: usize = 0;

/// Manages a limited amount of access to the coordinator.
///
/// - The coordinator is made when a job first needs it, and again after it was
///   given up.
///
/// - Only one job of a kind goes on at a time: a new job cancels the older one.
///
/// - Jobs run side by side up to a limit. A job beyond it waits for its turn.
///
/// `C` is a coordinator, `H` a handle by which a job is cancelled. A job counts
/// as live from when it is spawned until it is joined; live jobs are known by
/// number and kept in the order in which they were spawned.
pub struct CoordinatorManager<C, H> {
    coordinator: Option<Arc<C>>,
    tasks: Vec<usize>,
    abort_handles: [Option<H>; N_KINDS],
}

/// A job to spawn. It may go to work at once if `start` holds, and else when its
/// turn has come.
#[derive(Debug)]
pub struct Job<C> {
    pub id: usize,
    pub start: bool,
    pub coordinator: Arc<C>,
}

/// The state of a [`CoordinatorManager`].
#[verifier::ext_equal]
pub struct ManagerView<C, H> {
    pub coordinator: Option<C>,
    pub tasks: Seq<usize>,
    pub abort_handles: Seq<Option<H>>,
}

/// Whether `id` is the least number that no task has.
pub open spec fn is_fresh(tasks: Seq<usize>, id: usize) -> bool {
    &&& !tasks.contains(id)
    &&& forall|j: usize| j < id ==> tasks.contains(j)
}

/// The least number that no task has.
pub open spec fn fresh_id(tasks: Seq<usize>) -> usize {
    choose|id: usize| is_fresh(tasks, id)
}

impl<C, H> ManagerView<C, H> {
    /// No coordinator, no job.
    pub open spec fn initial() -> Self {
        ManagerView { coordinator: None, tasks: seq![], abort_handles: seq![None] }
    }

    pub open spec fn wf(self) -> bool {
        &&& self.tasks.no_duplicates()
        &&& self.abort_handles.len() == N_KINDS
    }

    /// The jobs that may be at work: the oldest, up to the limit.
    pub open spec fn running(self) -> Seq<usize> {
        if self.tasks.len() <= N_PARALLEL {
            self.tasks
        } else {
            self.tasks.take(N_PARALLEL as int)
        }
    }

    /// With a coordinator.
    pub open spec fn with_coordinator(self, coordinator: C) -> Self {
        ManagerView { coordinator: Some(coordinator), ..self }
    }

    /// Without a coordinator.
    pub open spec fn without_coordinator(self) -> Self {
        ManagerView { coordinator: None, ..self }
    }

    /// With one more live job.
    pub open spec fn with_job(self) -> Self {
        ManagerView { tasks: self.tasks.push(fresh_id(self.tasks)), ..self }
    }

    /// Whether one more job may go to work at once.
    pub open spec fn has_room(self) -> bool {
        self.tasks.len() < N_PARALLEL
    }

    /// With `handle` as the one by which the job that goes on is cancelled.
    pub open spec fn with_handle(self, handle: H) -> Self {
        ManagerView {
            abort_handles: self.abort_handles.update(KIND_EXECUTE as int, Some(handle)),
            ..self
        }
    }

    /// The handle of the job that was spawned last.
    pub open spec fn handle(self) -> Option<H> {
        self.abort_handles[KIND_EXECUTE as int]
    }

    /// Without the job `id`.
    pub open spec fn without_job(self, id: usize) -> Self {
        ManagerView { tasks: self.tasks.remove(self.tasks.index_of(id)), ..self }
    }

    /// The job whose turn comes when `id` leaves: the oldest that waits, if `id` was
    /// among those that may be at work.
    pub open spec fn next_turn(self, id: usize) -> Option<usize> {
        if self.tasks.index_of(id) < N_PARALLEL && self.tasks.len() > N_PARALLEL {
            Some(self.tasks[N_PARALLEL as int])
        } else {
            None
        }
    }

    /// Without live jobs.
    pub open spec fn without_jobs(self) -> Self {
        ManagerView { tasks: seq![], ..self }
    }

    /// What becomes of the coordinator when it is given up: handed back to be
    /// shut down if the manager holds the `sole` handle to it.
    pub open spec fn given_up(self, sole: bool) -> Result<Option<C>, CoordinatorManagerError> {
        match self.coordinator {
            None => Ok(None),
            Some(coordinator) => if sole {
                Ok(Some(coordinator))
            } else {
                Err(CoordinatorManagerError::OutstandingCoordinator)
            },
        }
    }
}

/// Numbers below `n` that all occur in `tasks` are at most as many as the tasks.
proof fn lemma_initial_segment(tasks: Seq<usize>, n: int)
    requires
        0 <= n <= usize::MAX + 1,
        forall|j: usize| j < n ==> tasks.contains(j),
    ensures
        n <= tasks.len(),
{
    let numbers = vstd::set_lib::set_int_range(0, n);
    let ids = tasks.map_values(|id: usize| id as int);
    vstd::set_lib::lemma_int_range(0, n);
    assert(numbers.subset_of(ids.to_set())) by {
        assert forall|j: int| numbers.contains(j) implies ids.to_set().contains(j) by {
            assert(tasks.contains(j as usize));
            let i = choose|i: int| 0 <= i < tasks.len() && tasks[i] == j as usize;
            assert(ids[i] == j);
        }
    }
    ids.lemma_cardinality_of_set();
    vstd::set_lib::lemma_len_subset(numbers, ids.to_set());
}

/// At most one number is the least that no task has.
proof fn lemma_fresh_id_unique(tasks: Seq<usize>, id: usize)
    requires
        is_fresh(tasks, id),
    ensures
        fresh_id(tasks) == id,
{
    let other = fresh_id(tasks);
    assert(is_fresh(tasks, other));
    if other < id {
        assert(tasks.contains(other));
    } else if id < other {
        assert(tasks.contains(id));
    }
}

/// Some number is left that no task has.
pub(crate) proof fn lemma_fresh_id_exists(tasks: Seq<usize>, from: int)
    requires
        0 <= from <= tasks.len() <= usize::MAX,
        forall|j: usize| j < from ==> tasks.contains(j),
    ensures
        is_fresh(tasks, fresh_id(tasks)),
    decreases tasks.len() - from,
{
    if tasks.contains(from as usize) {
        lemma_initial_segment(tasks, from + 1);
        lemma_fresh_id_exists(tasks, from + 1);
    } else {
        assert(is_fresh(tasks, from as usize));
    }
}

/// A new job has a number of its own.
pub(crate) proof fn lemma_with_job_distinct<C, H>(manager: ManagerView<C, H>)
    requires
        manager.wf(),
        manager.tasks.len() <= usize::MAX,
    ensures
        manager.with_job().wf(),
{
    lemma_fresh_id_exists(manager.tasks, 0);
}

/// A new job is at work exactly if there was room for it, and changes nothing for
/// the others.
pub(crate) proof fn lemma_with_job_running<C, H>(manager: ManagerView<C, H>)
    ensures
        manager.with_job().running().to_set() == if manager.has_room() {
            manager.running().to_set().insert(fresh_id(manager.tasks))
        } else {
            manager.running().to_set()
        },
{
    let before = manager.running();
    let after = manager.with_job().running();
    let id = fresh_id(manager.tasks);
    if manager.has_room() {
        assert(after =~= before.push(id));
        assert(after.to_set() =~= before.to_set().insert(id)) by {
            assert forall|x: usize| after.contains(x) implies before.to_set().insert(id).contains(
                x,
            ) by {
                let i = choose|i: int| 0 <= i < after.len() && after[i] == x;
                if i < before.len() {
                    assert(before[i] == x);
                }
            }
            assert forall|x: usize| before.to_set().insert(id).contains(x) implies after.contains(
                x,
            ) by {
                if before.contains(x) {
                    let i = choose|i: int| 0 <= i < before.len() && before[i] == x;
                    assert(after[i] == x);
                } else {
                    assert(after[before.len() as int] == x);
                }
            }
        }
    } else {
        assert(after =~= before);
    }
}

/// The jobs at work when one leaves: the others that were, and the one whose turn
/// comes.
pub(crate) open spec fn after_leaving<C, H>(manager: ManagerView<C, H>, id: usize) -> Set<usize> {
    match manager.next_turn(id) {
        Some(next) => manager.running().to_set().remove(id).insert(next),
        None => manager.running().to_set().remove(id),
    }
}

/// When a job leaves, the others that were at work may go on, and the one whose turn
/// comes may go to work.
pub(crate) proof fn lemma_others_go_on<C, H>(manager: ManagerView<C, H>, id: usize)
    requires
        manager.tasks.contains(id),
    ensures
        after_leaving(manager, id).subset_of(manager.without_job(id).running().to_set()),
{
    let tasks = manager.tasks;
    let k = tasks.index_of(id);
    let left = manager.without_job(id).tasks;
    let before = manager.running();
    let after = manager.without_job(id).running();
    assert(forall|i: int| 0 <= i < left.len() ==> left[i] == if i < k {
        tasks[i]
    } else {
        tasks[i + 1]
    });
    assert forall|x: usize| after_leaving(manager, id).contains(x) implies after.contains(x) by {
        if before.contains(x) && x != id {
            let j = choose|j: int| 0 <= j < before.len() && before[j] == x;
            assert(tasks[j] == x);
            if j < k {
                assert(after[j] == x);
            } else {
                assert(after[j - 1] == x);
            }
        } else {
            assert(after[N_PARALLEL - 1] == x);
        }
    }
}

/// A job that leaves is at work no more, the one whose turn comes is, and nothing
/// changes for the others.
pub(crate) proof fn lemma_without_job<C, H>(manager: ManagerView<C, H>, id: usize)
    requires
        manager.wf(),
        manager.tasks.contains(id),
    ensures
        manager.without_job(id).wf(),
        manager.without_job(id).running().to_set() == after_leaving(manager, id),
{
    let tasks = manager.tasks;
    let k = tasks.index_of(id);
    let left = manager.without_job(id).tasks;
    let before = manager.running();
    let after = manager.without_job(id).running();
    assert(forall|i: int| 0 <= i < left.len() ==> left[i] == if i < k {
        tasks[i]
    } else {
        tasks[i + 1]
    });
    lemma_others_go_on(manager, id);
    assert forall|x: usize| after.contains(x) implies after_leaving(manager, id).contains(x) by {
        let i = choose|i: int| 0 <= i < after.len() && after[i] == x;
        let j = if i < k {
            i
        } else {
            i + 1
        };
        assert(tasks[j] == x);
        if j < N_PARALLEL {
            assert(before[j] == x);
        }
    }
    assert(after.to_set() =~= after_leaving(manager, id));
}

/// Whether taking the coordinator out of the manager's handle has come to this: that
/// it came `back`, or that it did not. Nothing but the attempt can tell.
pub closed spec fn reclaim_came_to<C>(coordinator: C, back: bool) -> bool {
    exists|handle: Arc<C>, result: Option<C>|
        *handle == coordinator && #[trigger] call_ensures(reclaim::<C>, (handle,), result) && back
            == (result is Some)
}

/// That a coordinator came back, or did not, is what an attempt to take it out of
/// its handle has given, and nothing else.
pub(crate) proof fn law_outcome_is_what_the_attempt_gave<C>(coordinator: C, back: bool)
    requires
        reclaim_came_to(coordinator, back),
    ensures
        exists|handle: Arc<C>, result: Option<C>|
            *handle == coordinator && #[trigger] call_ensures(reclaim::<C>, (handle,), result)
                && back == (result is Some),
{
}

/// What is made of a coordinator that was, or was not, the only one left.
pub fn reclaimed<C>(coordinator: Option<C>) -> (result: Result<C, CoordinatorManagerError>)
    ensures
        match coordinator {
            Some(coordinator) => result == Ok::<C, CoordinatorManagerError>(coordinator),
            None => result == Err::<C, CoordinatorManagerError>(
                CoordinatorManagerError::OutstandingCoordinator,
            ),
        },
{
    match coordinator {
        Some(coordinator) => Ok(coordinator),
        None => Err(CoordinatorManagerError::OutstandingCoordinator),
    }
}

/// What is reported of a coordinator's shutdown.
pub fn shut_down(result: Result<(), String>) -> (reported: Result<(), CoordinatorManagerError>)
    ensures
        match result {
            Ok(()) => reported is Ok,
            Err(source) => reported == Err::<(), CoordinatorManagerError>(
                CoordinatorManagerError::Shutdown { source },
            ),
        },
{
    match result {
        Ok(()) => Ok(()),
        Err(source) => Err(CoordinatorManagerError::Shutdown { source }),
    }
}

impl<C, H> View for CoordinatorManager<C, H> {
    type V = ManagerView<C, H>;

    closed spec fn view(&self) -> ManagerView<C, H> {
        ManagerView {
            coordinator: match self.coordinator {
                Some(coordinator) => Some(*coordinator),
                None => None,
            },
            tasks: self.tasks@,
            abort_handles: self.abort_handles@,
        }
    }
}

impl<C, H> CoordinatorManager<C, H> {
    /// Makes a manager without a coordinator and without jobs.
    pub fn new() -> (manager: Self)
        ensures
            manager@ == ManagerView::<C, H>::initial(),
            manager@.wf(),
    {
        CoordinatorManager { coordinator: None, tasks: Vec::new(), abort_handles: [None] }
    }

    /// Whether no job is live.
    pub fn is_empty(&self) -> (empty: bool)
        ensures
            empty == (self@.tasks.len() == 0),
    {
        self.tasks.is_empty()
    }

    /// A handle to the coordinator, `None` where one has to be made first.
    pub fn coordinator(&self) -> (coordinator: Option<Arc<C>>)
        ensures
            match coordinator {
                Some(coordinator) => self@.coordinator == Some(*coordinator),
                None => self@.coordinator is None,
            },
    {
        match &self.coordinator {
            Some(coordinator) => Some(share(coordinator)),
            None => None,
        }
    }

    /// Takes in a coordinator that was made, or the account of why none was.
    pub fn created(&mut self, result: Result<C, String>) -> (reported: Result<
        (),
        CoordinatorManagerError,
    >)
        ensures
            match result {
                Ok(coordinator) => {
                    &&& reported is Ok
                    &&& final(self)@ == old(self)@.with_coordinator(coordinator)
                },
                Err(source) => {
                    &&& reported == Err::<(), CoordinatorManagerError>(
                        CoordinatorManagerError::New { source },
                    )
                    &&& final(self)@ == old(self)@
                },
            },
    {
        match result {
            Ok(coordinator) => {
                self.coordinator = Some(Arc::new(coordinator));
                Ok(())
            },
            Err(source) => Err(CoordinatorManagerError::New { source }),
        }
    }

    /// The least number that no live job has.
    fn fresh(&self) -> (id: usize)
        ensures
            is_fresh(self@.tasks, id),
    {
        let mut id: usize = 0;
        while id < self.tasks.len()
            invariant
                id <= self.tasks.len(),
                forall|j: usize| j < id ==> self.tasks@.contains(j),
            decreases self.tasks.len() - id,
        {
            let mut taken = false;
            let mut i: usize = 0;
            while i < self.tasks.len()
                invariant
                    i <= self.tasks.len(),
                    taken == self.tasks@.take(i as int).contains(id),
                decreases self.tasks.len() - i,
            {
                proof {
                    let before = self.tasks@.take(i as int);
                    let after = self.tasks@.take(i + 1);
                    assert(after =~= before.push(self.tasks@[i as int]));
                    if before.contains(id) {
                        let k = choose|k: int| 0 <= k < before.len() && before[k] == id;
                        assert(after[k] == id);
                    }
                    if self.tasks@[i as int] == id {
                        assert(after[i as int] == id);
                    }
                    if after.contains(id) {
                        let k = choose|k: int| 0 <= k < after.len() && after[k] == id;
                        if k < i {
                            assert(before[k] == id);
                        }
                    }
                }
                if self.tasks[i] == id {
                    taken = true;
                }
                i += 1;
            }
            assert(self.tasks@.take(i as int) =~= self.tasks@);
            if !taken {
                return id;
            }
            id += 1;
        }
        proof {
            if self.tasks@.contains(id) {
                lemma_initial_segment(self.tasks@, id + 1);
            }
        }
        id
    }

    /// Adds a job, `None` where a coordinator has to be made first.
    pub fn spawn(&mut self) -> (job: Option<Job<C>>)
        requires
            old(self)@.wf(),
        ensures
            final(self)@.wf(),
            match old(self)@.coordinator {
                Some(coordinator) => {
                    &&& job matches Some(job)
                    &&& job.id == fresh_id(old(self)@.tasks)
                    &&& !old(self)@.tasks.contains(job.id)
                    &&& job.start == old(self)@.has_room()
                    &&& *job.coordinator == coordinator
                    &&& final(self)@ == old(self)@.with_job()
                },
                None => job is None && final(self)@ == old(self)@,
            },
    {
        let coordinator = match self.coordinator() {
            Some(coordinator) => coordinator,
            None => {
                return None;
            },
        };
        let id = self.fresh();
        let start = self.tasks.len() < N_PARALLEL;
        proof {
            lemma_fresh_id_unique(self@.tasks, id);
        }
        self.tasks.push(id);
        Some(Job { id, start, coordinator })
    }

    /// Takes in the handle of the job that was spawned, and gives back that of
    /// the older job, which is to be cancelled.
    pub fn spawned(&mut self, handle: H) -> (older: Option<H>)
        requires
            old(self)@.wf(),
        ensures
            older == old(self)@.handle(),
            final(self)@ == old(self)@.with_handle(handle),
            final(self)@.wf(),
    {
        let older = self.abort_handles[KIND_EXECUTE].take();
        self.abort_handles[KIND_EXECUTE] = Some(handle);
        older
    }

    /// Takes out a job that has ended, `None` where no live job has this number,
    /// and tells which job's turn has come.
    pub fn joined(&mut self, id: usize) -> (turn: Option<Option<usize>>)
        requires
            old(self)@.wf(),
        ensures
            final(self)@.wf(),
            if old(self)@.tasks.contains(id) {
                &&& turn == Some(old(self)@.next_turn(id))
                &&& final(self)@ == old(self)@.without_job(id)
            } else {
                turn is None && final(self)@ == old(self)@
            },
    {
        let mut i: usize = 0;
        while i < self.tasks.len()
            invariant
                i <= self.tasks.len(),
                forall|k: int| 0 <= k < i ==> self.tasks@[k] != id,
                self@ == old(self)@,
                self@.wf(),
            decreases self.tasks.len() - i,
        {
            if self.tasks[i] == id {
                proof {
                    assert(self.tasks@[i as int] == id);
                    assert(self@.tasks.index_of(id) == i);
                }
                let turn = if i < N_PARALLEL && self.tasks.len() > N_PARALLEL {
                    Some(self.tasks[N_PARALLEL])
                } else {
                    None
                };
                self.tasks.remove(i);
                return Some(turn);
            }
            i += 1;
        }
        None
    }

    /// Gives up the coordinator: `Ok` with the coordinator that is to be shut
    /// down, or with none where there is nothing to do.
    pub fn idle(&mut self) -> (result: Result<Option<C>, CoordinatorManagerError>)
        ensures
            final(self)@ == old(self)@.without_coordinator(),
            exists|sole: bool|
                {
                    &&& result == #[trigger] old(self)@.given_up(sole)
                    &&& old(self)@.coordinator matches Some(coordinator) ==> reclaim_came_to(
                        coordinator,
                        sole,
                    )
                },
    {
        let result = match self.coordinator.take() {
            Some(coordinator) => {
                let back = reclaim(coordinator);
                assert(call_ensures(reclaim::<C>, (coordinator,), back));
                match reclaimed(back) {
                    Ok(coordinator) => Ok(Some(coordinator)),
                    Err(error) => Err(error),
                }
            },
            None => Ok(None),
        };
        assert(result == old(self)@.given_up(result is Ok));
        result
    }

    /// Forgets all jobs, which have been cancelled and have ended.
    pub fn jobs_shut_down(&mut self)
        requires
            old(self)@.wf(),
        ensures
            final(self)@ == old(self)@.without_jobs(),
            final(self)@.wf(),
    {
        self.tasks.clear();
    }
}

} // verus!
