//! The part of a swarm that is whole numbers: how many agents there are and
//! which species each belongs to. Positions and headings are real-valued and
//! are drawn by the caller.
//!
//! A swarm is a function of the random draws that it is made from. The draws
//! come from the generator of the calling thread; a caller that wants the
//! same swarm again keeps them and hands them back.

use vstd::prelude::*;
use crate::params::SPECIES_COUNT;

verus! {

/// The thread-local generator; carried from where it is made to where it is
/// drawn from and never looked into.
#[verifier::external_type_specification]
#[verifier::external_body]
pub struct ExThreadRng(rand::rngs::ThreadRng);

/// `rand::thread_rng`: a handle to the generator of the calling thread, which
/// the system seeds. Nothing is claimed of it.
pub assume_specification[ rand::thread_rng ]() -> (rng: rand::rngs::ThreadRng);

/// `rand::Rng::gen_range` on the half-open range `low..high`: some number of
/// that range, and nothing more is known of it. The call panics on an empty
/// range, so `low` is below `high`.
#[verifier::external_body]
fn draw_between(rng: &mut rand::rngs::ThreadRng, low: u32, high: u32) -> (r: u32)
    requires
        low < high,
    ensures
        low <= r < high,
{
    rand::Rng::gen_range(rng, low..high)
}

/// Every tag is a species.
pub open spec fn all_species(tags: Seq<u32>) -> bool {
    forall|i: int| 0 <= i < tags.len() ==> tags[i] < SPECIES_COUNT
}

/// The species that a draw stands for: the draw itself where it is a
/// species, and its remainder by the number of species where it is not.
pub open spec fn species_of(draw: u32) -> u32 {
    draw % SPECIES_COUNT
}

/// The species of the swarm that is made from `draws`: one agent for each
/// draw, in the order of the draws.
pub open spec fn swarm_species(draws: Seq<u32>) -> Seq<u32> {
    Seq::new(draws.len(), |i: int| species_of(draws[i]))
}

/// A swarm is made from its draws and from nothing else: it has one agent
/// for each draw, every agent is of a species, and two sequences of draws
/// that agree draw by draw give swarms that agree agent by agent.
pub proof fn lemma_swarm_follows_draws(a: Seq<u32>, b: Seq<u32>)
    requires
        a.len() == b.len(),
        forall|i: int| 0 <= i < a.len() ==> a[i] == b[i],
    ensures
        swarm_species(a) == swarm_species(b),
        swarm_species(a).len() == a.len(),
        all_species(swarm_species(a)),
{
    assert(swarm_species(a) =~= swarm_species(b));
}

/// Draws that are species already are taken as they are.
pub proof fn lemma_species_kept(draws: Seq<u32>)
    requires
        all_species(draws),
    ensures
        swarm_species(draws) == draws,
{
    assert(swarm_species(draws) =~= draws);
}

/// Makes `count` draws from the generator of the calling thread, each of
/// them a species.
pub fn sample_draws(count: u32) -> (draws: Vec<u32>)
    ensures
        draws@.len() == count,
        all_species(draws@),
{
    let mut rng = rand::thread_rng();
    let mut draws: Vec<u32> = Vec::new();
    let mut i: u32 = 0;
    while i < count
        invariant
            i <= count,
            draws@.len() == i,
            all_species(draws@),
        decreases count - i,
    {
        let draw = draw_between(&mut rng, 0, SPECIES_COUNT);
        draws.push(draw);
        i = i + 1;
    }
    draws
}

/// The species of the swarm that is made from `draws`. The draws are the
/// only input: the same draws give the same swarm.
pub fn species_from_draws(draws: &Vec<u32>) -> (tags: Vec<u32>)
    ensures
        tags@ == swarm_species(draws@),
{
    let mut tags: Vec<u32> = Vec::new();
    let mut i: usize = 0;
    while i < draws.len()
        invariant
            i <= draws@.len(),
            tags@ == swarm_species(draws@.take(i as int)),
        decreases draws@.len() - i,
    {
        tags.push(draws[i] % SPECIES_COUNT);
        i = i + 1;
        assert(tags@ =~= swarm_species(draws@.take(i as int)));
    }
    assert(draws@.take(i as int) =~= draws@);
    tags
}

/// Draws a species for each of `count` agents.
pub fn sample_species(count: u32) -> (tags: Vec<u32>)
    ensures
        tags@.len() == count,
        all_species(tags@),
{
    let draws = sample_draws(count);
    let tags = species_from_draws(&draws);
    proof {
        lemma_species_kept(draws@);
    }
    tags
}

} // verus!
