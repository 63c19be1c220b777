//! The double-buffered field: which of the two buffers is settled, which is
//! scratch, and how the two trade places at the end of a frame.

use vstd::prelude::*;
use crate::params::ParamsView;
use crate::params::StaticParams;
use crate::swarm::all_species;
use crate::swarm::sample_draws;
use crate::swarm::species_from_draws;
use crate::swarm::swarm_species;

verus! {

/// How the end of a frame makes the freshly written field the settled one.
#[derive(Clone, Copy, Debug, PartialEq, Eq, Structural)]
pub enum SwapPolicy {
    /// The two buffers trade roles; no data moves.
    ExchangeRoles,
    /// The roles stay; the scratch buffer is copied over the settled one.
    CopyBack,
}

/// A pass direction: the buffer bound read-only and the one bound read-write,
/// each as an index into the pair of field buffers.
#[derive(Clone, Copy, Debug, PartialEq, Eq, Structural)]
pub struct Bindings {
    pub read_only: usize,
    pub read_write: usize,
}

/// What the caller has to do to the buffers when a frame settles.
#[derive(Clone, Copy, Debug, PartialEq, Eq, Structural)]
pub enum Settle {
    /// Nothing: the roles were exchanged.
    Exchanged,
    /// One copy of `bytes` bytes from buffer `from` to buffer `to`.
    Copy { from: usize, to: usize, bytes: u32 },
}

/// Mathematical content of a [`WorldStore`].
pub struct WorldView {
    pub params: ParamsView,
    pub policy: SwapPolicy,
    /// Index of the settled buffer: 0 or 1.
    pub current: int,
    /// How many frames have settled since the store was made.
    pub settled: nat,
}

impl WorldView {
    /// Index of the scratch buffer.
    pub open spec fn next(self) -> int {
        1 - self.current
    }

    /// The direction that reads the settled buffer and writes the scratch one.
    pub open spec fn forward(self) -> Bindings {
        Bindings { read_only: self.current as usize, read_write: self.next() as usize }
    }

    /// The direction that reads the scratch buffer and writes the settled one.
    pub open spec fn inverted(self) -> Bindings {
        Bindings { read_only: self.next() as usize, read_write: self.current as usize }
    }

    /// The settled index is 0 or 1 and follows from the policy and the number
    /// of frames settled: under `CopyBack` it never moves, under
    /// `ExchangeRoles` it is the parity of that number.
    pub open spec fn wf(self) -> bool {
        &&& self.params.fits()
        &&& match self.policy {
            SwapPolicy::CopyBack => self.current == 0,
            SwapPolicy::ExchangeRoles => self.current == self.settled % 2,
        }
    }

    /// What settling a frame asks of the caller.
    pub open spec fn settle_action(self) -> Settle {
        match self.policy {
            SwapPolicy::ExchangeRoles => Settle::Exchanged,
            SwapPolicy::CopyBack => Settle::Copy {
                from: self.next() as usize,
                to: self.current as usize,
                bytes: self.params.field_bytes() as u32,
            },
        }
    }

    /// The store after one more frame has settled.
    pub open spec fn swapped(self) -> WorldView {
        WorldView {
            current: match self.policy {
                SwapPolicy::ExchangeRoles => self.next(),
                SwapPolicy::CopyBack => self.current,
            },
            settled: self.settled + 1,
            ..self
        }
    }

    /// The store after `n` more frames have settled.
    pub open spec fn swapped_times(self, n: nat) -> WorldView
        decreases n,
    {
        if n == 0 {
            self
        } else {
            self.swapped_times((n - 1) as nat).swapped()
        }
    }
}

/// Settling keeps a store well formed.
pub proof fn lemma_swapped_wf(w: WorldView)
    requires
        w.wf(),
    ensures
        w.swapped().wf(),
{
}

/// After `n` frames the store has settled exactly `n` more times, its
/// dimensions and agent count are what they were, and under `ExchangeRoles`
/// the settled index has moved by the parity of `n`.
pub proof fn lemma_swapped_times(w: WorldView, n: nat)
    requires
        w.wf(),
    ensures
        w.swapped_times(n).wf(),
        w.swapped_times(n).settled == w.settled + n,
        w.swapped_times(n).params == w.params,
        w.swapped_times(n).policy == w.policy,
        w.policy == SwapPolicy::ExchangeRoles ==> w.swapped_times(n).current == (w.current + n) % 2,
        w.policy == SwapPolicy::CopyBack ==> w.swapped_times(n).current == w.current,
    decreases n,
{
    if n > 0 {
        lemma_swapped_times(w, (n - 1) as nat);
    }
}

/// What a reset writes to the device.
#[derive(Debug, PartialEq, Eq)]
pub struct ResetPlan {
    /// The new content of each of the two field buffers.
    pub field_bytes: Vec<u8>,
    /// The species of each agent of the fresh swarm.
    pub species: Vec<u32>,
}

/// A plan for a session of dimensions `params`: the field is one whole copy
/// of zero bytes, which are the bytes of `f32` zeros, and the swarm has the
/// configured number of agents, each of a species.
pub open spec fn reset_plan_for(params: ParamsView, plan: ResetPlan) -> bool {
    &&& plan.field_bytes@.len() == params.field_bytes()
    &&& forall|i: int| 0 <= i < plan.field_bytes@.len() ==> plan.field_bytes@[i] == 0
    &&& plan.species@.len() == params.num_agents
    &&& all_species(plan.species@)
}

/// The plan that is made from `draws` for a session of dimensions `params`:
/// the field is one whole copy of zero bytes and the swarm is the one that
/// the draws give.
pub open spec fn reset_plan_from(params: ParamsView, draws: Seq<u32>, plan: ResetPlan) -> bool {
    &&& plan.field_bytes@.len() == params.field_bytes()
    &&& forall|i: int| 0 <= i < plan.field_bytes@.len() ==> plan.field_bytes@[i] == 0
    &&& plan.species@ == swarm_species(draws)
}

/// The dimensions and the draws fix the plan: two plans made from draws that
/// agree are the same, field and swarm, element by element.
pub proof fn lemma_reset_follows_draws(
    params: ParamsView,
    draws: Seq<u32>,
    first: ResetPlan,
    second: ResetPlan,
)
    requires
        reset_plan_from(params, draws, first),
        reset_plan_from(params, draws, second),
    ensures
        first.field_bytes@ == second.field_bytes@,
        first.species@ == second.species@,
{
    assert(first.field_bytes@ =~= second.field_bytes@);
}

/// A plan made from as many draws as the session has agents is a plan for
/// the session.
pub proof fn lemma_reset_from_whole_swarm(params: ParamsView, draws: Seq<u32>, plan: ResetPlan)
    requires
        reset_plan_from(params, draws, plan),
        draws.len() == params.num_agents,
    ensures
        reset_plan_for(params, plan),
{
}

/// Two plans for the same dimensions write the same field and a swarm of the
/// same size: a reset after a reset leaves the shape that the first one left.
pub proof fn lemma_reset_plans_agree(params: ParamsView, first: ResetPlan, second: ResetPlan)
    requires
        reset_plan_for(params, first),
        reset_plan_for(params, second),
    ensures
        first.field_bytes@ == second.field_bytes@,
        first.species@.len() == second.species@.len(),
{
}

/// The field's two buffers by role, and the agent count that goes with them.
pub struct WorldStore {
    params: StaticParams,
    policy: SwapPolicy,
    current: usize,
    settled: Ghost<nat>,
}

impl View for WorldStore {
    type V = WorldView;

    closed spec fn view(&self) -> WorldView {
        WorldView {
            params: self.params@,
            policy: self.policy,
            current: self.current as int,
            settled: self.settled@,
        }
    }
}

impl WorldStore {
    /// Holds of every value of the type: the view is well formed.
    #[verifier::type_invariant]
    pub open spec fn inv(self) -> bool {
        self@.wf()
    }

    /// A store whose buffer 0 is settled and in which no frame has settled yet.
    pub fn new(params: StaticParams, policy: SwapPolicy) -> (w: WorldStore)
        ensures
            w@ == (WorldView { params: params@, policy, current: 0, settled: 0 }),
            w@.wf(),
    {
        proof {
            use_type_invariant(&params);
        }
        WorldStore { params, policy, current: 0, settled: Ghost(0) }
    }

    /// The session's dimensions.
    pub fn params(&self) -> (p: StaticParams)
        ensures
            p@ == self@.params,
    {
        self.params
    }

    /// How this store settles a frame.
    pub fn policy(&self) -> (p: SwapPolicy)
        ensures
            p == self@.policy,
    {
        self.policy
    }

    /// Index of the settled buffer.
    pub fn current_index(&self) -> (i: usize)
        ensures
            i == self@.current,
            i < 2,
    {
        proof {
            use_type_invariant(self);
        }
        self.current
    }

    /// Index of the scratch buffer.
    pub fn next_index(&self) -> (i: usize)
        ensures
            i == self@.next(),
            i < 2,
    {
        proof {
            use_type_invariant(self);
        }
        1 - self.current
    }

    /// Settled buffer read-only, scratch buffer read-write.
    pub fn forward(&self) -> (b: Bindings)
        ensures
            b == self@.forward(),
    {
        Bindings { read_only: self.current_index(), read_write: self.next_index() }
    }

    /// Scratch buffer read-only, settled buffer read-write.
    pub fn inverted(&self) -> (b: Bindings)
        ensures
            b == self@.inverted(),
    {
        Bindings { read_only: self.next_index(), read_write: self.current_index() }
    }

    /// Plans a reset: zeros for both field buffers and a freshly drawn
    /// swarm. The store itself stays as it is, so every reset, whatever came
    /// before it, yields a plan of the same shape.
    pub fn reset(&self) -> (plan: ResetPlan)
        ensures
            reset_plan_for(self@.params, plan),
    {
        let draws = sample_draws(self.params.num_agents());
        let plan = self.reset_from(&draws);
        proof {
            lemma_reset_from_whole_swarm(self@.params, draws@, plan);
        }
        plan
    }

    /// Plans a reset from draws that the caller holds: zeros for both field
    /// buffers and the swarm that the draws give. The store and the draws are
    /// the only inputs, so the same draws give the same plan.
    pub fn reset_from(&self, draws: &Vec<u32>) -> (plan: ResetPlan)
        ensures
            reset_plan_from(self@.params, draws@, plan),
    {
        let bytes = self.params.field_bytes();
        let field_bytes = vec![0u8; bytes as usize];
        let species = species_from_draws(draws);
        ResetPlan { field_bytes, species }
    }

    /// Settles the frame: exchanges the roles, or asks for the one copy that
    /// stands in for the exchange.
    pub fn swap(&mut self) -> (action: Settle)
        ensures
            final(self)@ == old(self)@.swapped(),
            final(self)@.wf(),
            action == old(self)@.settle_action(),
    {
        proof {
            use_type_invariant(&*self);
        }
        let next = 1 - self.current;
        let bytes = self.params.field_bytes();
        match self.policy {
            SwapPolicy::ExchangeRoles => {
                *self = WorldStore {
                    params: self.params,
                    policy: self.policy,
                    current: next,
                    settled: Ghost(self.settled@ + 1),
                };
                Settle::Exchanged
            },
            SwapPolicy::CopyBack => {
                let to = self.current;
                *self = WorldStore {
                    params: self.params,
                    policy: self.policy,
                    current: to,
                    settled: Ghost(self.settled@ + 1),
                };
                Settle::Copy { from: next, to, bytes }
            },
        }
    }
}

} // verus!
