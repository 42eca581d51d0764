use std::cmp::Ordering;

use overcooked::dyn_hash::DynHash;
use overcooked::dyn_ord::DynOrd;
use overcooked::dyn_partial_eq::DynPartialEq;
use overcooked::dyn_partial_ord::DynPartialOrd;
use overcooked::erased::{erased_cmp, Erasable, ErasedState};
use overcooked::test_utils::test_actor_states::{MyActorState2, TestActor1State};

#[test]
fn test_example() {
    let a1 = TestActor1State { value: 1 };
    let a2 = TestActor1State { value: 1 };
    let b1 = MyActorState2 { value: 1 };
    let b2 = MyActorState2 { value: 2 };

    assert!(a1.dyn_eq(&a2.as_erased()));
    assert!(!a1.dyn_eq(&b1.as_erased()));
    assert!(!b1.dyn_eq(&b2.as_erased()));
}

#[test]
fn dyn_partial_eq_works() {
    let a1 = TestActor1State { value: 1 };
    let a2 = TestActor1State { value: 1 };
    let b1 = MyActorState2 { value: 1 };
    let b2 = MyActorState2 { value: 2 };

    assert!(a1.dyn_eq(&a2.as_erased()));
    assert!(!a1.dyn_eq(&b1.as_erased()));
    assert!(!b1.dyn_eq(&b2.as_erased()));
}

#[test]
fn dyn_partial_ord_works() {
    let a1 = TestActor1State { value: 1 };
    let a2 = TestActor1State { value: 1 };
    let b1 = MyActorState2 { value: 1 };
    let b2 = MyActorState2 { value: 2 };

    assert_eq!(a1.dyn_partial_cmp(&a2.as_erased()), Some(Ordering::Equal));
    assert_eq!(a1.dyn_partial_cmp(&b1.as_erased()), None);
    assert_eq!(b1.dyn_partial_cmp(&b2.as_erased()), Some(Ordering::Less));
    assert_eq!(b2.dyn_partial_cmp(&b1.as_erased()), Some(Ordering::Greater));
}

#[test]
fn dyn_partial_ord_partial_ord_works() {
    let a1 = TestActor1State { value: 1 };
    let a2 = TestActor1State { value: 1 };
    let b1 = MyActorState2 { value: 1 };
    let b2 = MyActorState2 { value: 2 };

    assert_eq!(a1.dyn_partial_cmp(&a2.as_erased()), Some(Ordering::Equal));
    assert_eq!(a1.dyn_partial_cmp(&b1.as_erased()), None);
    assert_eq!(b1.dyn_partial_cmp(&b2.as_erased()), Some(Ordering::Less));
    assert_eq!(b2.dyn_partial_cmp(&b1.as_erased()), Some(Ordering::Greater));
}

#[test]
fn order_of_different_types_is_determined_by_its_type_id() {
    let a = TestActor1State { value: 1 };
    let b = MyActorState2 { value: 1 };
    assert_eq!(
        a.dyn_cmp(&b.as_erased()),
        a.as_erased().type_tag.cmp(&b.as_erased().type_tag)
    );
}

#[test]
fn dyn_ord_partial_ord_works() {
    let a1 = TestActor1State { value: 1 };
    let a2 = TestActor1State { value: 1 };
    let b1 = MyActorState2 { value: 1 };
    let b2 = MyActorState2 { value: 2 };

    assert_eq!(a1.dyn_cmp(&a2.as_erased()), Ordering::Equal);
    assert_eq!(b1.dyn_cmp(&b2.as_erased()), Ordering::Less);
    assert_eq!(b2.dyn_cmp(&b1.as_erased()), Ordering::Greater);
}

#[test]
fn dyn_hash_works() {
    let a = TestActor1State { value: 1 };
    let _hash_value = a.dyn_hash();

    // tag 1 folded with the single byte 1: 1 * 31 + 1
    assert_eq!(a.dyn_hash(), 32);
}

#[test]
fn erased_states_compare_by_tag_then_bytes() {
    let shorter = ErasedState { type_tag: 7, values: vec![1] };
    let longer = ErasedState { type_tag: 7, values: vec![1, 2] };
    let other_tag = ErasedState { type_tag: 8, values: vec![] };

    assert_eq!(erased_cmp(&shorter, &longer), Ordering::Less);
    assert_eq!(erased_cmp(&longer, &shorter), Ordering::Greater);
    assert_eq!(erased_cmp(&longer, &longer), Ordering::Equal);
    assert_eq!(erased_cmp(&longer, &other_tag), Ordering::Less);
}
