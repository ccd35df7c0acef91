use std::collections::hash_map::DefaultHasher;
use std::hash::{Hash, Hasher};
use std::sync::atomic::{AtomicUsize, Ordering};
use std::sync::{Arc, Mutex};
use vk_raii::{Handle, RawHandle, UniqueHandle};

#[derive(Debug, PartialEq, Eq, PartialOrd, Hash)]
struct Counted {
    id: u32,
}

struct CountedDeps {
    destroyed: Arc<AtomicUsize>,
    tag: u32,
}

impl RawHandle for Counted {
    type Dependencies = CountedDeps;

    fn name() -> &'static str {
        "counted"
    }

    fn destroy(&self, deps: &CountedDeps) {
        deps.destroyed.fetch_add(1, Ordering::SeqCst);
    }
}

fn counted(id: u32, tag: u32) -> (Handle<Counted, CountedDeps>, Arc<AtomicUsize>) {
    let destroyed = Arc::new(AtomicUsize::new(0));
    let handle = Handle::new(Counted { id }, CountedDeps { destroyed: destroyed.clone(), tag });
    (handle, destroyed)
}

#[test]
fn new_handle_lends_what_it_was_given() {
    let (handle, destroyed) = counted(11, 5);
    assert_eq!(handle.handle().id, 11);
    assert_eq!(handle.dependencies().tag, 5);
    assert_eq!(handle.reference_count(), 1);
    assert_eq!(destroyed.load(Ordering::SeqCst), 0);
}

#[test]
fn destroy_runs_once_after_the_last_clone_is_dropped() {
    let (first, destroyed) = counted(1, 0);
    let second = first.clone();
    let third = second.clone();
    drop(second);
    assert_eq!(destroyed.load(Ordering::SeqCst), 0);
    let fourth = third.clone();
    drop(first);
    assert_eq!(destroyed.load(Ordering::SeqCst), 0);
    drop(fourth);
    assert_eq!(destroyed.load(Ordering::SeqCst), 0);
    drop(third);
    assert_eq!(destroyed.load(Ordering::SeqCst), 1);
}

#[test]
fn destroy_runs_once_for_a_handle_never_cloned() {
    let (only, destroyed) = counted(2, 0);
    assert_eq!(destroyed.load(Ordering::SeqCst), 0);
    drop(only);
    assert_eq!(destroyed.load(Ordering::SeqCst), 1);
}

#[test]
fn clone_outlives_the_handle_it_came_from() {
    let (first, destroyed) = counted(21, 8);
    let copy = first.clone();
    drop(first);
    assert_eq!(destroyed.load(Ordering::SeqCst), 0);
    assert_eq!(copy.handle().id, 21);
    assert_eq!(copy.dependencies().tag, 8);
    assert_eq!(copy.reference_count(), 1);
    drop(copy);
    assert_eq!(destroyed.load(Ordering::SeqCst), 1);
}

#[test]
fn try_unwrap_of_the_only_owner_gives_the_parts_back() {
    let (only, destroyed) = counted(31, 9);
    assert_eq!(only.reference_count(), 1);
    match only.try_unwrap() {
        Ok((raw, deps)) => {
            assert_eq!(raw.id, 31);
            assert_eq!(deps.tag, 9);
            assert_eq!(destroyed.load(Ordering::SeqCst), 0);
            drop(raw);
            drop(deps);
        }
        Err(_) => panic!("the only owner must get its parts back"),
    }
    assert_eq!(destroyed.load(Ordering::SeqCst), 0);
}

#[test]
fn try_unwrap_of_a_shared_handle_gives_the_handle_back() {
    let (first, destroyed) = counted(32, 4);
    let second = first.clone();
    assert_eq!(second.reference_count(), 2);
    let back = match first.try_unwrap() {
        Ok(_) => panic!("a shared handle must not come apart"),
        Err(back) => back,
    };
    assert_eq!(back.handle().id, 32);
    assert_eq!(back.dependencies().tag, 4);
    assert_eq!(back.reference_count(), 2);
    assert_eq!(second.reference_count(), 2);
    assert_eq!(destroyed.load(Ordering::SeqCst), 0);
    drop(back);
    assert_eq!(second.reference_count(), 1);
    drop(second);
    assert_eq!(destroyed.load(Ordering::SeqCst), 1);
}

#[test]
fn settle_hands_on_the_parts_of_an_owner_that_came_out() {
    let destroyed = Arc::new(AtomicUsize::new(0));
    let unique = UniqueHandle::new(Counted { id: 41 }, CountedDeps { destroyed: destroyed.clone(), tag: 2 });
    match Handle::settle(Ok(unique)) {
        Ok((raw, deps)) => {
            assert_eq!(raw.id, 41);
            assert_eq!(deps.tag, 2);
        }
        Err(_) => panic!("an owner that came out must be taken apart"),
    }
    assert_eq!(destroyed.load(Ordering::SeqCst), 0);
}

#[test]
fn settle_wraps_a_pointer_that_came_back() {
    let destroyed = Arc::new(AtomicUsize::new(0));
    let unique = UniqueHandle::new(Counted { id: 42 }, CountedDeps { destroyed: destroyed.clone(), tag: 3 });
    let handle = match Handle::settle(Err(Arc::new(unique))) {
        Ok(_) => panic!("a pointer that came back must stay whole"),
        Err(handle) => handle,
    };
    assert_eq!(handle.handle().id, 42);
    assert_eq!(handle.reference_count(), 1);
    assert_eq!(destroyed.load(Ordering::SeqCst), 0);
    drop(handle);
    assert_eq!(destroyed.load(Ordering::SeqCst), 1);
}

#[test]
fn reference_count_after_clones_and_drops() {
    let (first, _destroyed) = counted(51, 0);
    let mut clones = Vec::new();
    let n: usize = 7;
    for made in 0..n {
        assert_eq!(first.reference_count(), made + 1);
        clones.push(first.clone());
    }
    assert_eq!(first.reference_count(), n + 1);
    for k in 1..=n {
        drop(clones.pop());
        assert_eq!(first.reference_count(), n + 1 - k);
    }
    assert_eq!(first.reference_count(), 1);
}

struct Logged {
    label: &'static str,
}

struct LoggedDeps<P> {
    order: Arc<Mutex<Vec<&'static str>>>,
    parent: P,
}

impl RawHandle for Logged {
    type Dependencies = LoggedDeps<()>;

    fn name() -> &'static str {
        "logged"
    }

    fn destroy(&self, deps: &LoggedDeps<()>) {
        deps.order.lock().unwrap().push(self.label);
    }
}

struct Child {
    label: &'static str,
}

impl RawHandle for Child {
    type Dependencies = LoggedDeps<Handle<Logged, LoggedDeps<()>>>;

    fn name() -> &'static str {
        "child"
    }

    fn destroy(&self, deps: &Self::Dependencies) {
        assert_eq!(deps.parent.handle().label, "A");
        deps.order.lock().unwrap().push(self.label);
    }
}

#[test]
fn a_dependent_is_destroyed_before_what_it_depends_on() {
    let order = Arc::new(Mutex::new(Vec::new()));
    let a = Handle::new(Logged { label: "A" }, LoggedDeps { order: order.clone(), parent: () });
    let b = Handle::new(Child { label: "B" }, LoggedDeps { order: order.clone(), parent: a.clone() });
    assert_eq!(a.reference_count(), 2);
    let b2 = b.clone();
    drop(b);
    assert!(order.lock().unwrap().is_empty());
    drop(a);
    assert!(order.lock().unwrap().is_empty());
    drop(b2);
    assert_eq!(*order.lock().unwrap(), vec!["B", "A"]);
}

#[test]
fn an_ancestor_outlives_its_dependent_when_dropped_last() {
    let order = Arc::new(Mutex::new(Vec::new()));
    let a = Handle::new(Logged { label: "A" }, LoggedDeps { order: order.clone(), parent: () });
    let b = Handle::new(Child { label: "B" }, LoggedDeps { order: order.clone(), parent: a.clone() });
    drop(b);
    assert_eq!(*order.lock().unwrap(), vec!["B"]);
    assert_eq!(a.reference_count(), 1);
    drop(a);
    assert_eq!(*order.lock().unwrap(), vec!["B", "A"]);
}

#[test]
fn handles_compare_as_their_resources_do() {
    let (low, _d1) = counted(1, 100);
    let (same, _d2) = counted(1, 200);
    let (high, _d3) = counted(2, 100);
    let alias = low.clone();
    assert!(low == alias);
    assert!(low == same);
    assert!(low != high);
    assert!(low < high);
    assert!(high > same);
    assert_eq!(low.partial_cmp(&same), Some(std::cmp::Ordering::Equal));
}

fn digest<V: Hash>(value: &V) -> u64 {
    let mut hasher = DefaultHasher::new();
    value.hash(&mut hasher);
    hasher.finish()
}

#[test]
fn handles_hash_as_their_resources_do() {
    let (handle, _d1) = counted(77, 1);
    let (other, _d2) = counted(78, 1);
    assert_eq!(digest(&handle), digest(&Counted { id: 77 }));
    assert_eq!(digest(&handle.clone()), digest(&handle));
    assert_ne!(digest(&handle), digest(&other));
}

#[test]
fn a_handle_derefs_to_its_resource() {
    let (handle, _destroyed) = counted(91, 0);
    assert_eq!(handle.id, 91);
    let raw: &Counted = &handle;
    assert_eq!(*raw, Counted { id: 91 });
}
