//! The concurrency scheduler: a fixed-capacity permit pool with a
//! cooperative cancellation flag. A unit of work (one post, or one file
//! transfer) acquires a permit before it starts and releases it when it
//! finishes, success or failure. Once cancellation is observed no new
//! permit is granted, while permits already held may still be released:
//! in-flight work drains, nothing is aborted.

use vstd::prelude::*;

verus! {

/// The abstract state of a permit pool.
pub struct PoolModel {
    pub active: int,
    pub max: int,
    pub cancelled: bool,
}

/// The events a pool reacts to.
#[derive(Clone, Copy, Debug, PartialEq, Eq, Structural)]
pub enum PoolEvent {
    /// A unit of work asks to start.
    Acquire,
    /// A unit of work finished and hands its permit back.
    Release,
    /// The cancellation flag was set.
    Cancel,
}

/// The bound invariant: never more active units than the configured maximum.
pub open spec fn model_wf(s: PoolModel) -> bool {
    0 <= s.active <= s.max
}

/// One step of the pool: an acquire is granted only below the maximum and
/// only before cancellation; a release returns a permit; cancellation is
/// sticky and stops nothing that already runs.
pub open spec fn model_step(s: PoolModel, e: PoolEvent) -> PoolModel {
    match e {
        PoolEvent::Acquire => {
            if !s.cancelled && s.active < s.max {
                PoolModel { active: s.active + 1, ..s }
            } else {
                s
            }
        },
        PoolEvent::Release => {
            if s.active > 0 {
                PoolModel { active: s.active - 1, ..s }
            } else {
                s
            }
        },
        PoolEvent::Cancel => PoolModel { cancelled: true, ..s },
    }
}

/// The pool after a whole sequence of events.
pub open spec fn model_run(s: PoolModel, es: Seq<PoolEvent>) -> PoolModel
    decreases es.len(),
{
    if es.len() == 0 {
        s
    } else {
        model_run(model_step(s, es[0]), es.subrange(1, es.len() as int))
    }
}

/// A single step keeps the bound.
pub proof fn lemma_step_preserves_wf(s: PoolModel, e: PoolEvent)
    requires
        model_wf(s),
    ensures
        model_wf(model_step(s, e)),
{
}

/// A whole run keeps the bound.
pub proof fn lemma_run_preserves_wf(s: PoolModel, es: Seq<PoolEvent>)
    requires
        model_wf(s),
    ensures
        model_wf(model_run(s, es)),
    decreases es.len(),
{
    if es.len() > 0 {
        lemma_step_preserves_wf(s, es[0]);
        lemma_run_preserves_wf(model_step(s, es[0]), es.subrange(1, es.len() as int));
    }
}

/// Concurrency bound: starting from a well-formed pool, at no point of
/// any event sequence are more than `max` units active — every prefix of
/// the run satisfies the bound.
pub proof fn lemma_concurrency_bound(s: PoolModel, es: Seq<PoolEvent>)
    requires
        model_wf(s),
    ensures
        forall|k: int| 0 <= k <= es.len() ==> model_wf(model_run(s, #[trigger] es.take(k))),
{
    assert forall|k: int| 0 <= k <= es.len() implies model_wf(
        model_run(s, #[trigger] es.take(k)),
    ) by {
        lemma_run_preserves_wf(s, es.take(k));
    }
}

/// Cancellation drains and does not abort: once the flag is set, it stays
/// set, and the number of active units never rises above what it was when
/// cancellation was observed — no new unit starts, while releases (work
/// finishing and writing its data) still go through.
pub proof fn lemma_cancel_drains(s: PoolModel, es: Seq<PoolEvent>)
    requires
        s.cancelled,
    ensures
        model_run(s, es).cancelled,
        model_run(s, es).active <= s.active,
    decreases es.len(),
{
    if es.len() > 0 {
        lemma_cancel_drains(model_step(s, es[0]), es.subrange(1, es.len() as int));
    }
}

/// Every intermediate state of a run after cancellation also stays at or
/// below the active count seen at cancellation.
pub proof fn lemma_cancel_drains_throughout(s: PoolModel, es: Seq<PoolEvent>)
    requires
        s.cancelled,
    ensures
        forall|k: int| 0 <= k <= es.len()
            ==> model_run(s, #[trigger] es.take(k)).active <= s.active
                && model_run(s, es.take(k)).cancelled,
{
    assert forall|k: int| 0 <= k <= es.len() implies model_run(
        s,
        #[trigger] es.take(k),
    ).active <= s.active && model_run(s, es.take(k)).cancelled by {
        lemma_cancel_drains(s, es.take(k));
    }
}

/// The executable permit pool. Its fields are private: the constructor
/// establishes the bound invariant and every method preserves it, each
/// stepping the abstract model exactly.
pub struct PermitPool {
    max: usize,
    active: usize,
    cancelled: bool,
}

impl PermitPool {
    /// The abstract state of this pool.
    pub closed spec fn model(&self) -> PoolModel {
        PoolModel { active: self.active as int, max: self.max as int, cancelled: self.cancelled }
    }

    /// Well-formed: the bound invariant, with a positive capacity.
    pub open spec fn wf(&self) -> bool {
        model_wf(self.model()) && self.model().max >= 1
    }

    /// Make a pool of `max_concurrency` permits. A non-positive capacity
    /// is a configuration error: exactly then nothing is returned.
    pub fn new(max_concurrency: usize) -> (r: Option<PermitPool>)
        ensures
            r is Some <==> max_concurrency >= 1,
            r matches Some(p) ==> p.wf() && p.model() == (PoolModel {
                active: 0,
                max: max_concurrency as int,
                cancelled: false,
            }),
    {
        if max_concurrency >= 1 {
            Some(PermitPool { max: max_concurrency, active: 0, cancelled: false })
        } else {
            None
        }
    }

    /// Ask to start one unit of work. Granted exactly when the pool is
    /// not cancelled and has a permit free; the state moves as one
    /// `Acquire` step of the model.
    pub fn try_acquire(&mut self) -> (granted: bool)
        requires
            old(self).wf(),
        ensures
            final(self).wf(),
            final(self).model() == model_step(old(self).model(), PoolEvent::Acquire),
            granted <==> (!old(self).model().cancelled && old(self).model().active < old(
                self,
            ).model().max),
    {
        if !self.cancelled && self.active < self.max {
            self.active = self.active + 1;
            true
        } else {
            false
        }
    }

    /// Hand a permit back when a unit of work finishes.
    pub fn release(&mut self)
        requires
            old(self).wf(),
            old(self).model().active >= 1,
        ensures
            final(self).wf(),
            final(self).model() == model_step(old(self).model(), PoolEvent::Release),
    {
        self.active = self.active - 1;
    }

    /// Observe the cancellation flag: no later acquire is granted.
    pub fn cancel(&mut self)
        requires
            old(self).wf(),
        ensures
            final(self).wf(),
            final(self).model() == model_step(old(self).model(), PoolEvent::Cancel),
    {
        self.cancelled = true;
    }

    /// Whether cancellation has been observed.
    pub fn is_cancelled(&self) -> (r: bool)
        ensures
            r == self.model().cancelled,
    {
        self.cancelled
    }

    /// How many units hold a permit now.
    pub fn active_count(&self) -> (r: usize)
        ensures
            r == self.model().active,
    {
        self.active
    }

    /// The configured maximum.
    pub fn capacity(&self) -> (r: usize)
        ensures
            r == self.model().max,
    {
        self.max
    }
}

} // verus!
