use std::cell::Cell;
use std::rc::Rc;

use dynarray::buffer::Buffer;
use dynarray::vector::Vector;

/// Counts how many times values of it are dropped.
struct Counted {
    id: usize,
    drops: Rc<Cell<usize>>,
}

impl Drop for Counted {
    fn drop(&mut self) {
        self.drops.set(self.drops.get() + 1);
    }
}

fn counted(id: usize, drops: &Rc<Cell<usize>>) -> Counted {
    Counted { id, drops: Rc::clone(drops) }
}

#[test]
fn create() {
    let mut x: Vector<String> = Vector::new(1);
    x.push(String::from("adjhdasj"));
    x.push(String::from("adjhdasj"));
    x.push(String::from("ajkfhdskjha"));
    println!("{}", x.len());
    assert_eq!(x.len(), 3);
    assert_eq!(x.get(0), "adjhdasj");
    assert_eq!(x.get(1), "adjhdasj");
    assert_eq!(x.get(2), "ajkfhdskjha");
}

#[test]
fn pushes_then_shared_walk_in_order() {
    let mut v: Vector<u32> = Vector::new(0);
    for i in 0..10u32 {
        v.push(i * 3);
    }
    assert_eq!(v.len(), 10);
    let mut it = v.iter();
    let mut seen = Vec::new();
    while let Some(x) = it.next() {
        seen.push(*x);
    }
    assert_eq!(seen, (0..10u32).map(|i| i * 3).collect::<Vec<u32>>());
    // a fresh walk starts over
    let mut again = v.iter();
    assert_eq!(again.next(), Some(&0));
    assert_eq!(again.next(), Some(&3));
}

#[test]
fn shared_walk_of_empty_array_ends_at_once() {
    let v: Vector<u8> = Vector::new(5);
    let mut it = v.iter();
    assert!(it.next().is_none());
    assert!(it.next().is_none());
}

#[test]
fn pushes_then_pops_in_reverse_and_drops_each_once() {
    let drops = Rc::new(Cell::new(0));
    let mut v: Vector<Counted> = Vector::new(0);
    for i in 0..20 {
        v.push(counted(i, &drops));
    }
    for i in (0..20).rev() {
        let t = v.pop().unwrap();
        assert_eq!(t.id, i);
    }
    assert!(v.pop().is_none());
    assert!(v.is_empty());
    assert_eq!(drops.get(), 20);
    drop(v);
    assert_eq!(drops.get(), 20);
}

#[test]
fn pop_on_fresh_array_is_absent() {
    let mut v: Vector<i64> = Vector::new(0);
    assert!(v.pop().is_none());
    assert_eq!(v.len(), 0);
    assert_eq!(v.capacity(), 0);

    let mut w: Vector<i64> = Vector::new(4);
    assert!(w.pop().is_none());
    assert_eq!(w.len(), 0);
    assert_eq!(w.capacity(), 4);
}

#[test]
fn push_then_pop_round_trip() {
    let mut v: Vector<String> = Vector::new(0);
    v.push(String::from("keep"));
    v.push(String::from("round trip"));
    assert_eq!(v.pop(), Some(String::from("round trip")));
    assert_eq!(v.len(), 1);
    assert_eq!(v.get(0), "keep");
}

#[test]
fn growth_preserves_elements() {
    let mut v: Vector<u64> = Vector::new(2);
    v.push(10);
    v.push(20);
    assert!(v.is_full());
    v.push(30);
    assert_eq!(v.capacity(), 4);
    assert!(!v.is_full());
    assert_eq!(*v.get(0), 10);
    assert_eq!(*v.get(1), 20);
    assert_eq!(*v.get(2), 30);
}

#[test]
fn growth_doubles_from_one_slot() {
    let mut v: Vector<u8> = Vector::new(0);
    assert!(v.is_full());
    let mut caps = Vec::new();
    for i in 0..9u8 {
        v.push(i);
        caps.push(v.capacity());
    }
    assert_eq!(caps, vec![1, 2, 4, 4, 8, 8, 8, 8, 16]);

    let mut w: Vector<u8> = Vector::new(3);
    for i in 0..3u8 {
        w.push(i);
    }
    assert_eq!(w.capacity(), 3);
    w.push(3);
    assert_eq!(w.capacity(), 6);
}

#[test]
fn growth_count_is_logarithmic() {
    let mut v: Vector<usize> = Vector::new(0);
    let mut growths = 0;
    for i in 0..1000usize {
        let before = v.capacity();
        v.push(i);
        if v.capacity() != before {
            growths += 1;
        }
    }
    assert!(growths <= 20);
    assert_eq!(growths, 11);
    assert_eq!(v.capacity(), 1024);
    for i in 0..1000usize {
        assert_eq!(*v.get(i), i);
    }
}

#[test]
fn drop_destructs_live_elements_once() {
    let drops = Rc::new(Cell::new(0));
    {
        let mut v: Vector<Counted> = Vector::new(1);
        for i in 0..7 {
            v.push(counted(i, &drops));
        }
        drop(v.pop());
        drop(v.pop());
        assert_eq!(drops.get(), 2);
        assert_eq!(v.len(), 5);
    }
    assert_eq!(drops.get(), 7);
}

#[test]
fn scenario_three_strings() {
    let mut v: Vector<String> = Vector::new(1);
    v.push(String::from("a"));
    v.push(String::from("b"));
    v.push(String::from("c"));
    assert_eq!(v.len(), 3);
    let mut walk = Vec::new();
    let mut it = v.iter();
    while let Some(s) = it.next() {
        walk.push(s.clone());
    }
    assert_eq!(walk, vec!["a", "b", "c"]);

    let mut fresh: Vector<String> = Vector::new(1);
    fresh.push(String::from("a"));
    fresh.push(String::from("b"));
    fresh.push(String::from("c"));
    let mut consumed = Vec::new();
    let mut into = fresh.into_iter();
    while let Some(s) = into.next() {
        consumed.push(s);
    }
    assert_eq!(consumed, vec!["c", "b", "a"]);
    assert!(into.next().is_none());
}

#[test]
fn consuming_walk_dropped_early_drops_the_rest() {
    let drops = Rc::new(Cell::new(0));
    let mut v: Vector<Counted> = Vector::new(0);
    for i in 0..5 {
        v.push(counted(i, &drops));
    }
    let mut into = v.into_iter();
    let last = into.next().unwrap();
    assert_eq!(last.id, 4);
    drop(into);
    assert_eq!(drops.get(), 4);
    drop(last);
    assert_eq!(drops.get(), 5);
}

#[test]
fn exclusive_walk_writes_each_element() {
    let mut v: Vector<i32> = Vector::new(0);
    for i in 1..=4 {
        v.push(i);
    }
    {
        let mut it = v.iter_mut();
        while let Some(x) = it.next() {
            *x *= 10;
        }
        assert!(it.next().is_none());
    }
    assert_eq!(v.len(), 4);
    assert_eq!(*v.get(0), 10);
    assert_eq!(*v.get(1), 20);
    assert_eq!(*v.get(2), 30);
    assert_eq!(*v.get(3), 40);
}

#[test]
fn indexed_write_replaces_one_element() {
    let mut v: Vector<char> = Vector::new(0);
    v.push('x');
    v.push('y');
    *v.get_mut(1) = 'z';
    assert_eq!(*v.get(0), 'x');
    assert_eq!(*v.get(1), 'z');
    assert_eq!(v.len(), 2);
}

#[test]
fn emptiness_and_fullness() {
    let mut v: Vector<u8> = Vector::new(2);
    assert!(v.is_empty());
    assert!(!v.is_full());
    v.push(1);
    assert!(!v.is_empty());
    assert!(!v.is_full());
    v.push(2);
    assert!(v.is_full());
}

#[test]
fn buffer_slots_survive_growth() {
    let mut b: Buffer<String> = Buffer::new(2);
    assert_eq!(b.capacity(), 2);
    assert!(b.slot(0).is_none());
    b.put(1, String::from("second"));
    b.grow();
    assert_eq!(b.capacity(), 4);
    assert!(b.slot(0).is_none());
    assert_eq!(b.slot(1).as_deref(), Some("second"));
    assert!(b.slot(2).is_none());
    assert!(b.slot(3).is_none());
    assert_eq!(b.take(1), Some(String::from("second")));
    assert!(b.slot(1).is_none());
    *b.slot_mut(3) = Some(String::from("last"));
    assert_eq!(b.slot(3).as_deref(), Some("last"));
}

#[test]
fn empty_buffer_grows_to_one_slot() {
    let mut b: Buffer<u8> = Buffer::new(0);
    assert_eq!(b.capacity(), 0);
    b.grow();
    assert_eq!(b.capacity(), 1);
    assert!(b.slot(0).is_none());
}

#[test]
fn exclusive_walk_keeps_length_and_capacity() {
    let mut v: Vector<u32> = Vector::new(1);
    v.push(1);
    v.push(2);
    v.push(3);
    let cap = v.capacity();
    {
        let mut it = v.iter_mut();
        while let Some(x) = it.next() {
            *x += 10;
        }
    }
    assert_eq!(v.len(), 3);
    assert_eq!(v.capacity(), cap);
    assert!(v.capacity() >= v.len());
    assert_eq!((*v.get(0), *v.get(1), *v.get(2)), (11, 12, 13));
    assert_eq!(v.pop(), Some(13));
}
