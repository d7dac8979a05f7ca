//! What holds of every manager.

use crate::error::CoordinatorManagerError;
use crate::manager::{ManagerView, IDLE_TIMEOUT_SECS, KIND_EXECUTE, N_KINDS, N_PARALLEL};
use vstd::prelude::*;

verus! {

/// Two jobs may run at once, there is one kind of them, and a session without jobs
/// gives up its coordinator after a minute.
pub proof fn law_limits()
    ensures
        N_PARALLEL == 2,
        N_KINDS == 1,
        KIND_EXECUTE == 0,
        IDLE_TIMEOUT_SECS == 60,
{
}

/// A new manager has no coordinator, no job, and none to cancel.
pub proof fn law_new_manager_has_nothing<C, H>()
    ensures
        ManagerView::<C, H>::initial().coordinator is None,
        ManagerView::<C, H>::initial().tasks == Seq::<usize>::empty(),
        ManagerView::<C, H>::initial().abort_handles == seq![None::<H>],
        ManagerView::<C, H>::initial().wf(),
{
}

/// A manager is as it should be exactly if its jobs have numbers of their own and it
/// keeps one handle for each kind of job.
pub proof fn law_jobs_have_numbers_of_their_own<C, H>(manager: ManagerView<C, H>)
    ensures
        manager.wf() <==> manager.abort_handles.len() == 1 && forall|i: int, j: int|
            0 <= i < j < manager.tasks.len() ==> manager.tasks[i] != manager.tasks[j],
{
    assert(manager.tasks.no_duplicates() <==> forall|i: int, j: int|
        0 <= i < j < manager.tasks.len() ==> manager.tasks[i] != manager.tasks[j]);
}

/// A coordinator that was made is the manager's until it is given up, and neither
/// touches the jobs.
pub proof fn law_coordinator_is_kept_until_given_up<C, H>(
    manager: ManagerView<C, H>,
    coordinator: C,
)
    ensures
        manager.with_coordinator(coordinator).coordinator == Some(coordinator),
        manager.with_coordinator(coordinator).tasks == manager.tasks,
        manager.with_coordinator(coordinator).abort_handles == manager.abort_handles,
        manager.without_coordinator().coordinator is None,
        manager.without_coordinator().tasks == manager.tasks,
        manager.without_coordinator().abort_handles == manager.abort_handles,
{
}

/// A coordinator that is given up comes back if the manager's handle was the only one
/// left, and is reported as outstanding otherwise; without one there is nothing to
/// do. The jobs have no say in it.
pub proof fn law_only_handle_gives_the_coordinator_back<C, H>(
    manager: ManagerView<C, H>,
    coordinator: C,
    sole: bool,
)
    ensures
        manager.coordinator is None ==> manager.given_up(sole) == Ok::<
            Option<C>,
            CoordinatorManagerError,
        >(None),
        manager.coordinator == Some(coordinator) ==> manager.given_up(true) == Ok::<
            Option<C>,
            CoordinatorManagerError,
        >(Some(coordinator)),
        manager.coordinator == Some(coordinator) ==> manager.given_up(false) == Err::<
            Option<C>,
            CoordinatorManagerError,
        >(CoordinatorManagerError::OutstandingCoordinator),
{
}

/// A new job is added behind the others, under the least number that none of them has,
/// and nothing else changes. It may go to work at once while fewer than two jobs are
/// live.
pub proof fn law_new_job_has_a_number_of_its_own<C, H>(manager: ManagerView<C, H>)
    requires
        manager.tasks.len() <= usize::MAX,
    ensures
        ({
            let added = manager.with_job();
            let id = added.tasks.last();
            &&& added.tasks == manager.tasks.push(id)
            &&& id == crate::manager::fresh_id(manager.tasks)
            &&& !manager.tasks.contains(id)
            &&& forall|lesser: usize| lesser < id ==> manager.tasks.contains(lesser)
            &&& added.coordinator == manager.coordinator
            &&& added.abort_handles == manager.abort_handles
        }),
        manager.has_room() <==> manager.tasks.len() < 2,
{
    crate::manager::lemma_fresh_id_exists(manager.tasks, 0);
}

/// The handle of the newest job takes the place of the older one, and nothing else
/// changes.
pub proof fn law_newest_handle_is_kept<C, H>(manager: ManagerView<C, H>, handle: H)
    requires
        manager.wf(),
    ensures
        manager.handle() == manager.abort_handles[0],
        manager.with_handle(handle).handle() == Some(handle),
        manager.with_handle(handle).abort_handles == seq![Some(handle)],
        manager.with_handle(handle).coordinator == manager.coordinator,
        manager.with_handle(handle).tasks == manager.tasks,
{
}

/// A job that leaves is taken out, and nothing else changes. If it was one of the two
/// oldest, the turn of the third has come, if there is one.
pub proof fn law_turn_comes_when_an_older_job_leaves<C, H>(
    manager: ManagerView<C, H>,
    place: int,
)
    requires
        manager.wf(),
        0 <= place < manager.tasks.len(),
    ensures
        ({
            let id = manager.tasks[place];
            &&& manager.without_job(id).tasks == manager.tasks.remove(place)
            &&& manager.without_job(id).coordinator == manager.coordinator
            &&& manager.without_job(id).abort_handles == manager.abort_handles
            &&& manager.next_turn(id) == if place < 2 && manager.tasks.len() > 2 {
                Some(manager.tasks[2])
            } else {
                None
            }
        }),
{
    let id = manager.tasks[place];
    assert(manager.tasks.contains(id));
    assert(manager.tasks[manager.tasks.index_of(id)] == id);
    assert(manager.tasks.index_of(id) == place);
}

/// When all jobs are shut down none is left, and nothing else changes.
pub proof fn law_no_job_is_left_after_shutting_down<C, H>(manager: ManagerView<C, H>)
    ensures
        manager.without_jobs().tasks == Seq::<usize>::empty(),
        manager.without_jobs().coordinator == manager.coordinator,
        manager.without_jobs().abort_handles == manager.abort_handles,
{
}

} // verus!
