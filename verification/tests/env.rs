use allocator_api2::alloc::Global;
use steel_core::env::{Env, SharedVectorWrapper};
use steel_core::rvals::{SteelErr, SteelVal};

fn env_of(vals: &[SteelVal]) -> Env {
    let mut env = Env::root_in(Global);
    for (i, v) in vals.iter().enumerate() {
        env.repl_define_idx(i, *v);
    }
    env
}

#[test]
fn root_env_starts_empty() {
    let env = Env::root_in(Global);
    assert_eq!(env.len(), 0);
    assert!(env.roots().is_empty());
    assert_eq!(env.extract(0), None);
}

#[test]
fn define_appends_at_end() {
    let mut env = Env::root_in(Global);
    env.repl_define_idx(0, SteelVal::IntV(1));
    env.repl_define_idx(1, SteelVal::IntV(2));
    assert_eq!(env.len(), 2);
    assert_eq!(env.roots(), &[SteelVal::IntV(1), SteelVal::IntV(2)]);
}

#[test]
fn define_past_end_fills_with_void() {
    let mut env = Env::root_in(Global);
    env.repl_define_idx(3, SteelVal::BoolV(true));
    assert_eq!(env.len(), 4);
    assert_eq!(
        env.roots(),
        &[SteelVal::Void, SteelVal::Void, SteelVal::Void, SteelVal::BoolV(true)]
    );
}

#[test]
fn define_existing_slot_overwrites_it() {
    let mut env = env_of(&[SteelVal::IntV(1), SteelVal::IntV(2), SteelVal::IntV(3)]);
    env.repl_define_idx(1, SteelVal::CharV('x'));
    assert_eq!(env.len(), 3);
    assert_eq!(
        env.roots(),
        &[SteelVal::IntV(1), SteelVal::CharV('x'), SteelVal::IntV(3)]
    );
}

#[test]
fn add_root_value_defines_slot() {
    let mut env = Env::root_in(Global);
    env.add_root_value(1, SteelVal::IntV(5));
    assert_eq!(env.roots(), &[SteelVal::Void, SteelVal::IntV(5)]);
    env.add_root_value(0, SteelVal::IntV(4));
    assert_eq!(env.roots(), &[SteelVal::IntV(4), SteelVal::IntV(5)]);
}

#[test]
fn lookups_read_slots() {
    let env = env_of(&[SteelVal::IntV(10), SteelVal::BoolV(false)]);
    assert_eq!(env.repl_lookup_idx(0), SteelVal::IntV(10));
    assert_eq!(env.repl_lookup_idx(1), SteelVal::BoolV(false));
    assert_eq!(*env._repl_get_idx(1), SteelVal::BoolV(false));
    assert_eq!(env.repl_maybe_lookup_idx(0), Some(SteelVal::IntV(10)));
    assert_eq!(env.repl_maybe_lookup_idx(2), None);
    assert_eq!(env.extract(1), Some(SteelVal::BoolV(false)));
    assert_eq!(env.extract(7), None);
}

#[test]
fn set_returns_previous_value() {
    let mut env = env_of(&[SteelVal::IntV(1), SteelVal::IntV(2)]);
    let old = env.repl_set_idx(1, SteelVal::IntV(20));
    assert_eq!(old, Ok::<SteelVal, SteelErr>(SteelVal::IntV(2)));
    assert_eq!(env.roots(), &[SteelVal::IntV(1), SteelVal::IntV(20)]);
}

#[test]
fn set_then_restore_gives_back_table() {
    let mut env = env_of(&[SteelVal::IntV(1), SteelVal::CharV('q')]);
    let old = env.repl_set_idx(1, SteelVal::Void).unwrap();
    env.repl_set_idx(1, old).unwrap();
    assert_eq!(env.roots(), &[SteelVal::IntV(1), SteelVal::CharV('q')]);
}

#[test]
fn lookup_after_define_gives_value_and_keeps_others() {
    let mut env = env_of(&[SteelVal::IntV(1), SteelVal::IntV(2)]);
    env.repl_define_idx(4, SteelVal::IntV(9));
    assert_eq!(env.extract(4), Some(SteelVal::IntV(9)));
    assert_eq!(env.extract(0), Some(SteelVal::IntV(1)));
    assert_eq!(env.extract(1), Some(SteelVal::IntV(2)));
    assert_eq!(env.extract(2), Some(SteelVal::Void));
    assert_eq!(env.extract(3), Some(SteelVal::Void));
    assert_eq!(env.extract(5), None);
}

#[test]
fn define_twice_last_wins() {
    let mut a = env_of(&[SteelVal::IntV(1)]);
    a.repl_define_idx(3, SteelVal::IntV(2));
    a.repl_define_idx(3, SteelVal::IntV(3));
    let mut b = env_of(&[SteelVal::IntV(1)]);
    b.repl_define_idx(3, SteelVal::IntV(3));
    assert_eq!(a.roots(), b.roots());
}

#[test]
fn defines_of_different_slots_commute() {
    let mut a = env_of(&[SteelVal::IntV(1)]);
    a.repl_define_idx(2, SteelVal::IntV(2));
    a.repl_define_idx(4, SteelVal::IntV(4));
    let mut b = env_of(&[SteelVal::IntV(1)]);
    b.repl_define_idx(4, SteelVal::IntV(4));
    b.repl_define_idx(2, SteelVal::IntV(2));
    assert_eq!(a.roots(), b.roots());
    assert_eq!(a.len(), 5);
}

#[test]
fn drain_then_update_restores_bindings() {
    let mut env = env_of(&[SteelVal::IntV(1), SteelVal::IntV(2)]);
    let drained = env.drain_env();
    assert_eq!(env.len(), 0);
    env.update_env(drained);
    assert_eq!(env.roots(), &[SteelVal::IntV(1), SteelVal::IntV(2)]);
}

#[test]
fn default_env_empties_bindings() {
    let mut env = env_of(&[SteelVal::IntV(1)]);
    env.default_env();
    assert_eq!(env.len(), 0);
    env.repl_define_idx(0, SteelVal::IntV(3));
    assert_eq!(env.roots(), &[SteelVal::IntV(3)]);
}

#[test]
fn deep_clone_copies_and_is_independent() {
    let mut env = env_of(&[SteelVal::IntV(1), SteelVal::IntV(2)]);
    let copy = env.deep_clone();
    assert_eq!(copy.roots(), env.roots());
    env.repl_set_idx(0, SteelVal::IntV(100)).unwrap();
    env.repl_define_idx(2, SteelVal::IntV(3));
    assert_eq!(copy.roots(), &[SteelVal::IntV(1), SteelVal::IntV(2)]);
    assert_eq!(env.roots(), &[SteelVal::IntV(100), SteelVal::IntV(2), SteelVal::IntV(3)]);
}

#[test]
fn clone_shares_until_written() {
    let env = env_of(&[SteelVal::IntV(1), SteelVal::IntV(2)]);
    let mut other = env.clone();
    assert_eq!(other.roots(), env.roots());
    other.repl_set_idx(1, SteelVal::BoolV(true)).unwrap();
    assert_eq!(env.roots(), &[SteelVal::IntV(1), SteelVal::IntV(2)]);
    assert_eq!(other.roots(), &[SteelVal::IntV(1), SteelVal::BoolV(true)]);
}

#[test]
fn wrapper_set_and_define() {
    let mut env = Env::root_in(Global);
    let mut w: SharedVectorWrapper = env.drain_env();
    w.repl_define_idx(2, SteelVal::IntV(8));
    let old = w.set_idx(0, SteelVal::IntV(6));
    assert_eq!(old, SteelVal::Void);
    w.repl_define_idx(1, SteelVal::IntV(7));
    env.update_env(w.clone());
    assert_eq!(
        env.roots(),
        &[SteelVal::IntV(6), SteelVal::IntV(7), SteelVal::IntV(8)]
    );
    let empty = w.empty_like();
    env.update_env(empty);
    assert_eq!(env.len(), 0);
}
