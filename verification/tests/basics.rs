use lazy_static::once::Once;
use lazy_static::once::OnceState;
use lazy_static::lazy::Lazy;
use std::collections::HashMap;

fn times_two(n: usize) -> usize {
    n * 2
}

#[test]
fn test_basic() {
    let mut number: Lazy<usize> = Lazy::new();
    let mut vec_of_boxes: Lazy<[Box<usize>; 3]> = Lazy::new();
    let mut owned_string: Lazy<String> = Lazy::new();
    let mut hashmap: Lazy<HashMap<usize, &'static str>> = Lazy::new();
    let _unused: Lazy<()> = Lazy::new();

    assert_eq!(owned_string.get(|| "hello".to_string()).unwrap().as_str(), "hello");
    assert_eq!(*number.get(|| times_two(3)).unwrap(), 6);
    let m = hashmap
        .get(|| {
            let mut m = HashMap::new();
            m.insert(0usize, "abc");
            m.insert(1, "def");
            m.insert(2, "ghi");
            m
        })
        .unwrap();
    assert!(m.get(&1).is_some());
    assert!(m.get(&3).is_none());
    assert_eq!(
        vec_of_boxes.get(|| [Box::new(1usize), Box::new(2), Box::new(3)]).unwrap(),
        &[Box::new(1usize), Box::new(2), Box::new(3)]
    );
}

#[test]
fn test_repeat() {
    let mut number: Lazy<usize> = Lazy::new();
    assert_eq!(*number.get(|| times_two(3)).unwrap(), 6);
    assert_eq!(*number.get(|| times_two(3)).unwrap(), 6);
    assert_eq!(*number.get(|| times_two(3)).unwrap(), 6);
}

#[test]
fn latch_starts_uninitialized() {
    let g = Once::new();
    assert_eq!(g.state(), OnceState::Uninitialized);
}

#[test]
fn latch_claim_wins_exactly_once() {
    let mut g = Once::new();
    assert!(g.try_claim());
    assert_eq!(g.state(), OnceState::Running);
    assert!(!g.try_claim());
    assert_eq!(g.state(), OnceState::Running);
    g.complete();
    assert_eq!(g.state(), OnceState::Complete);
    assert!(!g.try_claim());
    assert_eq!(g.state(), OnceState::Complete);
}

#[test]
fn latch_poison_is_permanent() {
    let mut g = Once::new();
    assert!(g.try_claim());
    g.poison();
    assert_eq!(g.state(), OnceState::Poisoned);
    assert!(!g.try_claim());
    assert_eq!(g.state(), OnceState::Poisoned);
}
