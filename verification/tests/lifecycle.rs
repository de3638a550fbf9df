use shared_handle::engine::Engine;
use shared_handle::handle::new;
use std::cell::Cell;

#[test]
fn test_drop() {
    struct S<'a>(&'a mut &'static str);

    impl Drop for S<'_> {
        fn drop(&mut self) {
            *self.0 = "yes";
        }
    }

    let mut s = "no";
    {
        let mut engine = Engine::new();
        let t = new(&mut engine, S(&mut s));

        assert_eq!(*(*t.deref(&engine)).0, "no");
        t.drop(&mut engine);
    }
    assert_eq!(s, "yes");
}

#[test]
fn test_clone() {
    struct S(&'static str);

    let mut engine = Engine::new();
    let a = new(&mut engine, S("a"));
    let mut b = a.clone(&mut engine);

    assert_eq!((*a.deref(&engine)).0, "a");
    assert_eq!((*b.deref(&engine)).0, "a");

    (*b.deref_mut(&mut engine)).0 = "b";

    assert_eq!((*a.deref(&engine)).0, "b");
    assert_eq!((*b.deref(&engine)).0, "b");
}

#[test]
fn test_into() {
    trait T {
        fn m(&mut self);
    }

    struct S(u32);

    impl T for S {
        fn m(&mut self) {
            self.0 += 1;
        }
    }

    let mut engine = Engine::new();
    let mut s = new(&mut engine, S(0));
    s.deref_mut(&mut engine).m();
    assert_eq!((*s.deref(&engine)).0, 1);

    let b = Box::new(S(42));
    let _t = b as Box<dyn T>;

    let _b = new(&mut engine, S(42));
}

#[test]
fn dispatch_through_a_handle_is_dispatch_through_a_box() {
    trait Step {
        fn step(&mut self) -> u32;
    }

    struct ByOne(u32);

    impl Step for ByOne {
        fn step(&mut self) -> u32 {
            self.0 += 1;
            self.0
        }
    }

    let mut owned: Box<dyn Step> = Box::new(ByOne(42));

    let mut engine: Engine<Box<dyn Step>> = Engine::new();
    let mut a = new(&mut engine, Box::new(ByOne(42)) as Box<dyn Step>);
    let mut b = a.clone(&mut engine);

    assert_eq!(a.deref_mut(&mut engine).step(), owned.step());
    assert_eq!(b.deref_mut(&mut engine).step(), owned.step());
    assert_eq!(a.deref_mut(&mut engine).step(), 45);
}

/// A pointee that counts its destructions in a cell outside the engine.
struct Counted<'a>(&'a Cell<u32>);

impl Drop for Counted<'_> {
    fn drop(&mut self) {
        self.0.set(self.0.get() + 1);
    }
}

#[test]
fn construct_then_deref_reads_the_value() {
    let mut engine = Engine::new();
    let a = new(&mut engine, 7u64);
    let b = new(&mut engine, 11u64);
    assert_eq!(*a.deref(&engine), 7);
    assert_eq!(*b.deref(&engine), 11);
    assert_eq!(engine.use_count(&a.raw()), 1);
    assert_eq!(engine.use_count(&b.raw()), 1);

    let mut names = Engine::new();
    let n = new(&mut names, String::from("pointee"));
    assert_eq!(n.deref(&names).as_str(), "pointee");
}

#[test]
fn clone_then_drop_of_the_clone_changes_nothing() {
    let mut engine = Engine::new();
    let h = new(&mut engine, vec![1u8, 2, 3]);
    let words = h.words();

    let c = h.clone(&mut engine);
    assert_eq!(engine.use_count(&h.raw()), 2);
    c.drop(&mut engine);

    assert!(engine.is_valid(&h.raw()));
    assert_eq!(engine.use_count(&h.raw()), 1);
    assert_eq!(h.words(), words);
    assert_eq!(*h.deref(&engine), vec![1u8, 2, 3]);
}

#[test]
fn destructor_runs_once_with_the_last_handle() {
    let destroyed = Cell::new(0);
    let mut engine = Engine::new();
    let a = new(&mut engine, Counted(&destroyed));
    let b = a.clone(&mut engine);
    let c = b.clone(&mut engine);
    let stale = a.raw();
    assert_eq!(engine.use_count(&stale), 3);
    assert_eq!(destroyed.get(), 0);

    a.drop(&mut engine);
    assert_eq!(destroyed.get(), 0);
    assert_eq!(engine.use_count(&stale), 2);

    c.drop(&mut engine);
    assert_eq!(destroyed.get(), 0);
    assert_eq!(engine.use_count(&stale), 1);

    b.drop(&mut engine);
    assert_eq!(destroyed.get(), 1);
    assert!(!engine.is_valid(&stale));

    let d = new(&mut engine, Counted(&destroyed));
    assert!(!engine.is_valid(&stale));
    assert_ne!(d.words(), stale.words());
    assert_eq!(destroyed.get(), 1);
    d.drop(&mut engine);
    assert_eq!(destroyed.get(), 2);
}

#[test]
fn release_of_one_pointee_leaves_the_others() {
    let destroyed_a = Cell::new(0);
    let destroyed_b = Cell::new(0);
    let mut engine = Engine::new();
    let a = new(&mut engine, Counted(&destroyed_a));
    let b = new(&mut engine, Counted(&destroyed_b));

    a.drop(&mut engine);
    assert_eq!(destroyed_a.get(), 1);
    assert_eq!(destroyed_b.get(), 0);
    assert!(engine.is_valid(&b.raw()));
    assert_eq!(engine.use_count(&b.raw()), 1);
}

#[test]
fn mutation_is_seen_through_every_clone_and_no_other_handle() {
    let mut engine = Engine::new();
    let a = new(&mut engine, 1i32);
    let other = new(&mut engine, 1i32);
    let mut b = a.clone(&mut engine);
    let c = b.clone(&mut engine);

    *b.deref_mut(&mut engine) = 5;

    assert_eq!(*a.deref(&engine), 5);
    assert_eq!(*b.deref(&engine), 5);
    assert_eq!(*c.deref(&engine), 5);
    assert_eq!(*other.deref(&engine), 1);
}
