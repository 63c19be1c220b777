use slime_mould::params::StaticParams;
use slime_mould::world::{Bindings, Settle, SwapPolicy, WorldStore};

fn small() -> StaticParams {
    StaticParams::new(16, 8, 100).unwrap()
}

#[test]
fn a_new_store_has_buffer_zero_settled() {
    let w = WorldStore::new(small(), SwapPolicy::ExchangeRoles);
    assert_eq!(w.current_index(), 0);
    assert_eq!(w.next_index(), 1);
    assert_eq!(w.policy(), SwapPolicy::ExchangeRoles);
    assert_eq!(w.params(), small());
}

#[test]
fn directions_name_both_buffers() {
    let w = WorldStore::new(small(), SwapPolicy::ExchangeRoles);
    assert_eq!(w.forward(), Bindings { read_only: 0, read_write: 1 });
    assert_eq!(w.inverted(), Bindings { read_only: 1, read_write: 0 });
}

#[test]
fn exchanging_flips_the_roles_each_time() {
    let mut w = WorldStore::new(small(), SwapPolicy::ExchangeRoles);
    for n in 1..=7usize {
        assert_eq!(w.swap(), Settle::Exchanged);
        assert_eq!(w.current_index(), n % 2);
        assert_eq!(w.next_index(), 1 - n % 2);
        assert_eq!(
            w.forward(),
            Bindings { read_only: n % 2, read_write: 1 - n % 2 }
        );
    }
}

#[test]
fn copying_back_keeps_the_roles() {
    let mut w = WorldStore::new(small(), SwapPolicy::CopyBack);
    for _ in 0..5 {
        assert_eq!(w.swap(), Settle::Copy { from: 1, to: 0, bytes: 2048 });
        assert_eq!(w.current_index(), 0);
        assert_eq!(w.next_index(), 1);
    }
}

#[test]
fn reset_writes_zeros_and_a_whole_swarm() {
    let w = WorldStore::new(small(), SwapPolicy::CopyBack);
    let plan = w.reset();
    assert_eq!(plan.field_bytes.len(), 2048);
    assert!(plan.field_bytes.iter().all(|b| *b == 0));
    assert_eq!(plan.species.len(), 100);
    assert!(plan.species.iter().all(|s| *s < 2));
}

#[test]
fn reset_twice_gives_the_same_shape() {
    let mut w = WorldStore::new(small(), SwapPolicy::ExchangeRoles);
    w.swap();
    let first = w.reset();
    let second = w.reset();
    assert_eq!(first.field_bytes, second.field_bytes);
    assert_eq!(first.field_bytes, vec![0u8; 2048]);
    assert_eq!(first.species.len(), second.species.len());
    assert_eq!(second.species.len(), 100);
    assert!(second.species.iter().all(|s| *s < 2));
    assert_eq!(w.current_index(), 1);
}

#[test]
fn the_zero_bytes_are_zero_floats() {
    let w = WorldStore::new(small(), SwapPolicy::CopyBack);
    let plan = w.reset();
    for cell in plan.field_bytes.chunks(4) {
        let value = f32::from_ne_bytes([cell[0], cell[1], cell[2], cell[3]]);
        assert_eq!(value, 0.0);
    }
}

#[test]
fn reset_from_the_same_draws_gives_the_same_plan() {
    let mut w = WorldStore::new(small(), SwapPolicy::ExchangeRoles);
    let draws: Vec<u32> = (0..100u32).map(|i| (i * i + i / 3) % 2).collect();
    let first = w.reset_from(&draws);
    w.swap();
    let second = w.reset_from(&draws);
    assert_eq!(first, second);
    assert_eq!(first.species, draws);
    assert_eq!(first.field_bytes, vec![0u8; 2048]);
}

#[test]
fn reset_from_makes_one_agent_for_each_draw() {
    let w = WorldStore::new(small(), SwapPolicy::CopyBack);
    let plan = w.reset_from(&vec![1, 0, 5]);
    assert_eq!(plan.species, vec![1, 0, 1]);
    assert_eq!(plan.field_bytes.len(), 2048);
}
