//! Which cores of a relay parent a collator builds on.
use vstd::prelude::*;
use crate::candidate::BuilderTask;
use crate::primitives::{H256, ParaId, ValidationData};

verus! {

/// A core that is scheduled for a parachain.
#[derive(Clone, Copy, Debug, PartialEq, Eq)]
pub struct ScheduledCore {
    pub para_id: ParaId,
    pub collator: Option<[u8; 32]>,
}

/// A core that holds a candidate still waiting for availability.
#[derive(Clone, Copy, Debug, PartialEq, Eq)]
pub struct OccupiedCore {
    pub para_id: ParaId,
    pub candidate_hash: H256,
}

/// The state of one availability core at a relay parent.
#[derive(Clone, Copy, Debug, PartialEq, Eq)]
pub enum CoreState {
    Occupied(OccupiedCore),
    Scheduled(ScheduledCore),
    Free,
}

/// A collator of `para_id` builds on the core.
pub open spec fn is_actionable(c: CoreState, para_id: ParaId) -> bool {
    match c {
        CoreState::Scheduled(s) => s.para_id == para_id,
        _ => false,
    }
}

/// The positions of the cores that a collator of `para_id` builds on, in order.
pub open spec fn actionable_indices(cores: Seq<CoreState>, para_id: ParaId) -> Seq<usize>
    decreases cores.len(),
{
    if cores.len() == 0 {
        Seq::empty()
    } else {
        let before = actionable_indices(cores.drop_last(), para_id);
        if is_actionable(cores.last(), para_id) {
            before.push((cores.len() - 1) as usize)
        } else {
            before
        }
    }
}

/// The positions of the cores to request validation data for: those scheduled
/// for `para_id`, in order.
pub fn actionable_cores(cores: &Vec<CoreState>, para_id: ParaId) -> (r: Vec<usize>)
    ensures
        r@ == actionable_indices(cores@, para_id),
{
    let mut r: Vec<usize> = Vec::new();
    let mut i: usize = 0;
    while i < cores.len()
        invariant
            i <= cores@.len(),
            r@ == actionable_indices(cores@.subrange(0, i as int), para_id),
        decreases cores@.len() - i,
    {
        let ghost prefix = cores@.subrange(0, i + 1);
        assert(prefix.drop_last() =~= cores@.subrange(0, i as int));
        assert(prefix.last() == cores@[i as int]);
        let actionable = match &cores[i] {
            CoreState::Scheduled(s) => s.para_id == para_id,
            _ => false,
        };
        if actionable {
            r.push(i);
        }
        i = i + 1;
    }
    assert(cores@.subrange(0, cores@.len() as int) =~= cores@);
    r
}

/// Every position chosen is that of a core scheduled for the collator's
/// parachain, strictly after the one chosen before it, and every such core is
/// chosen.
proof fn lemma_indices_shape(cores: Seq<CoreState>, para_id: ParaId)
    requires
        cores.len() <= usize::MAX + 1,
    ensures
        forall|k: int|
            0 <= k < actionable_indices(cores, para_id).len() ==> {
                let i = #[trigger] actionable_indices(cores, para_id)[k];
                &&& i < cores.len()
                &&& is_actionable(cores[i as int], para_id)
            },
        forall|k: int, l: int|
            0 <= k < l < actionable_indices(cores, para_id).len() ==> #[trigger] actionable_indices(
                cores,
                para_id,
            )[k] < #[trigger] actionable_indices(cores, para_id)[l],
        forall|i: int|
            0 <= i < cores.len() && #[trigger] is_actionable(cores[i], para_id) ==> exists|k: int|
                0 <= k < actionable_indices(cores, para_id).len() && #[trigger] actionable_indices(
                    cores,
                    para_id,
                )[k] == i,
    decreases cores.len(),
{
    if cores.len() > 0 {
        let init = cores.drop_last();
        lemma_indices_shape(init, para_id);
        let before = actionable_indices(init, para_id);
        let all = actionable_indices(cores, para_id);
        assert forall|i: int|
            0 <= i < cores.len() && #[trigger] is_actionable(cores[i], para_id) implies exists|k: int|
                0 <= k < all.len() && #[trigger] all[k] == i by {
            if i < init.len() {
                assert(init[i] == cores[i]);
                let k = choose|k: int| 0 <= k < before.len() && #[trigger] before[k] == i;
                assert(all[k] == i);
            } else {
                assert(all[all.len() - 1] == i);
            }
        }
    }
}

/// When no core is scheduled for the collator's parachain, no core is chosen,
/// so no validation data is requested and no builder task is spawned.
pub proof fn lemma_no_scheduled_core_no_tasks(cores: Seq<CoreState>, para_id: ParaId)
    requires
        forall|i: int| 0 <= i < cores.len() ==> !is_actionable(#[trigger] cores[i], para_id),
    ensures
        actionable_indices(cores, para_id).len() == 0,
    decreases cores.len(),
{
    if cores.len() > 0 {
        let init = cores.drop_last();
        assert forall|i: int| 0 <= i < init.len() implies !is_actionable(#[trigger] init[i], para_id) by {
            assert(init[i] == cores[i]);
        }
        lemma_no_scheduled_core_no_tasks(init, para_id);
    }
}

/// Validation data is requested only for cores scheduled for the collator's
/// parachain: never for an occupied or a free core.
pub proof fn lemma_occupied_cores_not_requested(cores: Seq<CoreState>, para_id: ParaId)
    requires
        cores.len() <= usize::MAX + 1,
    ensures
        forall|k: int|
            0 <= k < actionable_indices(cores, para_id).len() ==> {
                let i = #[trigger] actionable_indices(cores, para_id)[k];
                &&& i < cores.len()
                &&& cores[i as int] is Scheduled
                &&& !(cores[i as int] is Occupied)
                &&& !(cores[i as int] is Free)
            },
{
    lemma_indices_shape(cores, para_id);
}

/// Each core scheduled for the collator's parachain is chosen exactly once,
/// and no other core is: one builder task, and so at most one candidate, per
/// matching core.
pub proof fn lemma_one_task_per_matching_core(cores: Seq<CoreState>, para_id: ParaId)
    requires
        cores.len() <= usize::MAX + 1,
    ensures
        forall|i: int|
            0 <= i < cores.len() ==> (#[trigger] is_actionable(cores[i], para_id) <==> exists|k: int|
                0 <= k < actionable_indices(cores, para_id).len() && #[trigger] actionable_indices(
                    cores,
                    para_id,
                )[k] == i),
        forall|k: int, l: int|
            0 <= k < actionable_indices(cores, para_id).len() && 0 <= l < actionable_indices(
                cores,
                para_id,
            ).len() && #[trigger] actionable_indices(cores, para_id)[k] == #[trigger] actionable_indices(
                cores,
                para_id,
            )[l] ==> k == l,
{
    lemma_indices_shape(cores, para_id);
    let idx = actionable_indices(cores, para_id);
    assert forall|k: int, l: int|
        0 <= k < idx.len() && 0 <= l < idx.len() && #[trigger] idx[k] == #[trigger] idx[l] implies k
        == l by {
        if k < l {
            assert(idx[k] < idx[l]);
        } else if l < k {
            assert(idx[l] < idx[k]);
        }
    }
}

/// What a round over one relay parent asks for next.
#[derive(Debug, PartialEq, Eq)]
pub enum RoundStep {
    /// Request the validation data of `para_id` at the relay parent, assuming
    /// that core `core` is free.
    RequestValidationData { core: usize, para_id: ParaId },
    /// Every chosen core has had its turn.
    Done,
}

/// The handling of one activated relay parent, once its cores and validator
/// count are known: asks for validation data core by core and turns each
/// answer into a builder task or a skip.
pub struct RelayParentRound {
    relay_parent: H256,
    para_id: ParaId,
    n_validators: usize,
    chosen: Vec<usize>,
    next: usize,
}

impl RelayParentRound {
    /// The relay parent that the round builds on.
    pub closed spec fn relay_parent_spec(&self) -> H256 {
        self.relay_parent
    }

    /// The parachain that is built for.
    pub closed spec fn para_id_spec(&self) -> ParaId {
        self.para_id
    }

    /// The number of validators at the relay parent.
    pub closed spec fn n_validators_spec(&self) -> usize {
        self.n_validators
    }

    /// The positions of the cores to build on.
    pub closed spec fn chosen_spec(&self) -> Seq<usize> {
        self.chosen@
    }

    /// How many of them have had their turn.
    pub closed spec fn done_spec(&self) -> nat {
        self.next as nat
    }

    /// The round has not gone past its last core.
    pub closed spec fn wf(&self) -> bool {
        self.next <= self.chosen@.len()
    }

    /// The round for `relay_parent`, with the cores and the number of
    /// validators read at it.
    pub fn new(
        relay_parent: H256,
        para_id: ParaId,
        cores: &Vec<CoreState>,
        n_validators: usize,
    ) -> (r: Self)
        ensures
            r.wf(),
            r.relay_parent_spec() == relay_parent,
            r.para_id_spec() == para_id,
            r.n_validators_spec() == n_validators,
            r.chosen_spec() == actionable_indices(cores@, para_id),
            r.done_spec() == 0,
    {
        RelayParentRound {
            relay_parent,
            para_id,
            n_validators,
            chosen: actionable_cores(cores, para_id),
            next: 0,
        }
    }

    /// The next request of the round.
    pub fn next_step(&self) -> (r: RoundStep)
        requires
            self.wf(),
        ensures
            if self.done_spec() < self.chosen_spec().len() {
                r == (RoundStep::RequestValidationData {
                    core: self.chosen_spec()[self.done_spec() as int],
                    para_id: self.para_id_spec(),
                })
            } else {
                r == RoundStep::Done
            },
    {
        if self.next < self.chosen.len() {
            RoundStep::RequestValidationData { core: self.chosen[self.next], para_id: self.para_id }
        } else {
            RoundStep::Done
        }
    }

    /// Takes the answer to the pending request: no validation data yet means
    /// the core is skipped; else a builder task is to be spawned for it.
    pub fn on_validation_data(&mut self, data: Option<ValidationData>) -> (r: Option<BuilderTask>)
        requires
            old(self).wf(),
            old(self).done_spec() < old(self).chosen_spec().len(),
        ensures
            final(self).wf(),
            final(self).done_spec() == old(self).done_spec() + 1,
            final(self).chosen_spec() == old(self).chosen_spec(),
            final(self).relay_parent_spec() == old(self).relay_parent_spec(),
            final(self).para_id_spec() == old(self).para_id_spec(),
            final(self).n_validators_spec() == old(self).n_validators_spec(),
            match data {
                None => r is None,
                Some(v) => r == Some(
                    BuilderTask {
                        relay_parent: old(self).relay_parent_spec(),
                        para_id: old(self).para_id_spec(),
                        validation_data: v,
                        n_validators: old(self).n_validators_spec(),
                    },
                ),
            },
    {
        let len = self.chosen.len();
        assert(self.next < len);
        self.next = self.next + 1;
        match data {
            None => None,
            Some(v) => Some(BuilderTask::new(self.relay_parent, self.para_id, v, self.n_validators)),
        }
    }
}

} // verus!
