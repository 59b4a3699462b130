use blocker::count::teardown_blocks;
use blocker::{BlockError, Blocker, Blockref};

#[derive(Debug)]
struct Test {
    x: usize,
}

impl Drop for Test {
    fn drop(&mut self) {
        self.x = 0;
    }
}

#[test]
fn test_basic() {
    let x = 5;
    let y = Blocker::new(&x);
    let z = y.get().unwrap();
    println!("{}", *z);
    assert_eq!(*z, 5);
    assert_eq!(z.release(), Ok(()));
    assert_eq!(y.teardown(), Ok(()));
}

#[test]
fn test_multi_explicit_drop() {
    let x = Test { x: 5 };
    let y = Blocker::new(&x);
    let z = y.get().unwrap();
    let w = y.get().unwrap();
    let v = y.get().unwrap();
    println!("v{:?}", *v);
    assert_eq!(v.x, 5);
    assert_eq!(v.release(), Ok(()));
    println!("w{:?}", *w);
    assert_eq!(w.x, 5);
    assert_eq!(w.release(), Ok(()));
    println!("z{:?}", *z);
    assert_eq!(z.x, 5);
    assert_eq!(z.release(), Ok(()));
    assert_eq!(y.teardown(), Ok(()));
    assert_eq!(x.x, 5);
}

#[test]
fn test_multi() {
    let x = Test { x: 5 };
    {
        let y = Blocker::new(&x);
        let z = y.get().unwrap();
        let w = y.get().unwrap();
        let v = y.get().unwrap();
        assert_eq!(y.pending(), Ok(3));
        println!("z{:?}", *z);
        assert_eq!(z.release(), Ok(()));
        println!("w{:?}", *w);
        assert_eq!(w.release(), Ok(()));
        println!("v{:?}", *v);
        assert_eq!(v.release(), Ok(()));
        assert_eq!(y.pending(), Ok(0));
        assert_eq!(y.teardown(), Ok(()));
    }
    assert_eq!(x.x, 5);
}

#[test]
fn test_race() {
    for _ in 0..1000 {
        let mut x = Test { x: 5 };
        {
            let y = Blocker::new(&x);
            let z = y.get().unwrap();
            let w = y.get().unwrap();
            assert!(z.x == 5);
            assert_eq!(z.release(), Ok(()));
            assert!(w.x == 5);
            assert_eq!(w.release(), Ok(()));
            assert_eq!(y.teardown(), Ok(()));
        }
        x.x = 6;
        assert_eq!(x.x, 6);
    }
}

#[test]
fn guard_without_handles_tears_down_at_once() {
    let x = 17u64;
    let y = Blocker::new(&x);
    assert_eq!(y.pending(), Ok(0));
    assert_eq!(y.teardown(), Ok(()));
}

#[test]
fn count_is_gets_less_releases() {
    let x = String::from("shared");
    for gets in 0usize..6 {
        for drops in 0..=gets {
            let y = Blocker::new(&x);
            let mut handles: Vec<Blockref<String>> = Vec::new();
            for _ in 0..gets {
                handles.push(y.get().unwrap());
            }
            assert_eq!(y.pending(), Ok(gets));
            for _ in 0..drops {
                assert_eq!(handles.pop().unwrap().release(), Ok(()));
            }
            assert_eq!(y.pending(), Ok(gets - drops));
            assert_eq!(teardown_blocks(y.pending().unwrap()), gets - drops > 0);
            for handle in handles {
                assert_eq!(handle.release(), Ok(()));
            }
            assert_eq!(y.pending(), Ok(0));
            assert_eq!(y.teardown(), Ok(()));
        }
    }
}

#[test]
fn live_handle_holds_teardown_back_until_released() {
    let x = 5;
    let y = Blocker::new(&x);
    let z = y.get().unwrap();
    let seen = y.pending().unwrap();
    assert_eq!(seen, 1);
    assert!(teardown_blocks(seen));
    assert_eq!(z.release(), Ok(()));
    let seen = y.pending().unwrap();
    assert_eq!(seen, 0);
    assert!(!teardown_blocks(seen));
    assert_eq!(y.teardown(), Ok(()));
}

#[test]
fn three_handles_released_in_any_order() {
    let orders: [[usize; 3]; 6] =
        [[0, 1, 2], [0, 2, 1], [1, 0, 2], [1, 2, 0], [2, 0, 1], [2, 1, 0]];
    for order in orders {
        let x = Test { x: 5 };
        let y = Blocker::new(&x);
        let mut handles: Vec<Option<Blockref<Test>>> = Vec::new();
        for _ in 0..3 {
            handles.push(Some(y.get().unwrap()));
        }
        let mut left = 3usize;
        for which in order {
            assert_eq!(y.pending(), Ok(left));
            assert!(teardown_blocks(left));
            let handle = handles[which].take().unwrap();
            assert_eq!(handle.x, 5);
            assert_eq!(handle.release(), Ok(()));
            left -= 1;
        }
        assert_eq!(y.pending(), Ok(0));
        assert_eq!(y.teardown(), Ok(()));
    }
}

#[test]
fn handle_reads_the_guarded_value() {
    let x = vec![1u8, 2, 3];
    let y = Blocker::new(&x);
    let first = y.get().unwrap();
    let second = y.get().unwrap();
    assert_eq!(*first, vec![1u8, 2, 3]);
    assert_eq!(first.len(), 3);
    assert_eq!(second[1], 2);
    assert!(std::ptr::eq(&*first, &x));
    assert!(std::ptr::eq(&*second, &x));
    assert_eq!(first.release(), Ok(()));
    assert_eq!(*second, x);
    assert_eq!(second.release(), Ok(()));
    assert_eq!(y.teardown(), Ok(()));
}

#[test]
fn owner_changes_the_value_only_after_teardown() {
    let mut x = Test { x: 5 };
    let y = Blocker::new(&x);
    let z = y.get().unwrap();
    assert_eq!(z.x, 5);
    assert_eq!(z.release(), Ok(()));
    assert_eq!(y.teardown(), Ok(()));
    x.x = 6;
    assert_eq!(x.x, 6);
}

#[test]
fn guards_on_one_value_count_apart() {
    let x = 9i32;
    let one = Blocker::new(&x);
    let other = Blocker::new(&x);
    let handle = one.get().unwrap();
    assert_eq!(one.pending(), Ok(1));
    assert_eq!(other.pending(), Ok(0));
    assert_eq!(other.teardown(), Ok(()));
    assert_eq!(*handle, 9);
    assert_eq!(handle.release(), Ok(()));
    assert_eq!(one.teardown(), Ok(()));
}

#[test]
fn handle_outlives_the_borrow_of_the_guard() {
    fn hand_out<'a>(guard: &Blocker<'a, u32>) -> Result<Blockref<'a, u32>, BlockError> {
        guard.get()
    }
    let x = 77u32;
    let y = Blocker::new(&x);
    let z = hand_out(&y).unwrap();
    assert_eq!(*z, 77);
    assert_eq!(z.release(), Ok(()));
    assert_eq!(y.teardown(), Ok(()));
}

#[test]
fn errors_are_told_apart() {
    assert_ne!(BlockError::Poisoned, BlockError::Exhausted);
    assert_ne!(BlockError::Poisoned, BlockError::Unbalanced);
    assert_ne!(BlockError::Exhausted, BlockError::Unbalanced);
    assert_eq!(format!("{:?}", BlockError::Poisoned), "Poisoned");
}
