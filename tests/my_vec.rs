use lessons::MyVec;
use std::cell::Cell;
use std::rc::Rc;

#[test]
fn test_new() {
    let mut vec = MyVec::new();
    vec.push("Hello");
    vec.push("World");
    vec.push("this");
    vec.push("is");
    vec.push("comp6991!");

    for i in 0..10 {
        println!("{:?}", vec.get(i));
    }

    assert_eq!(vec.pop(), Some("comp6991!"));
    assert_eq!(vec.pop(), Some("is"));
    assert_eq!(vec.pop(), Some("this"));

    for i in 0..10 {
        println!("{:?}", vec.get(i));
    }
}

#[test]
fn new_buffer_is_empty_and_unallocated() {
    let v: MyVec<u8> = MyVec::new();
    assert_eq!(v.len(), 0);
    assert_eq!(v.capacity(), 0);
    assert_eq!(v.get(0), None);
}

#[test]
fn five_strings_no_growth_then_three_pops() {
    let mut v = MyVec::new();
    for s in ["a", "b", "c", "d", "e"] {
        v.push(s.to_string());
    }
    assert_eq!(v.capacity(), 8);
    assert_eq!(v.len(), 5);
    assert_eq!(v.get(10), None);
    assert_eq!(v.pop(), Some("e".to_string()));
    assert_eq!(v.pop(), Some("d".to_string()));
    assert_eq!(v.pop(), Some("c".to_string()));
    assert_eq!(v.len(), 2);
    assert_eq!(v.get(0), Some(&"a".to_string()));
    assert_eq!(v.get(1), Some(&"b".to_string()));
    assert_eq!(v.get(2), None);
}

#[test]
fn nine_pushes_grow_capacity_to_sixteen() {
    let mut v = MyVec::new();
    for i in 0..8i64 {
        v.push(i * 10);
    }
    assert_eq!(v.capacity(), 8);
    v.push(80);
    assert_eq!(v.capacity(), 16);
    assert_eq!(v.len(), 9);
    for i in 0..9usize {
        assert_eq!(v.get(i), Some(&(i as i64 * 10)));
    }
}

#[test]
fn growth_from_sixteen_doubles_and_keeps_values() {
    let mut v = MyVec::new();
    for i in 0..16u32 {
        v.push(i);
    }
    assert_eq!(v.capacity(), 16);
    v.push(16);
    assert_eq!(v.capacity(), 32);
    for i in 0..17u32 {
        assert_eq!(v.get(i as usize), Some(&i));
    }
}

#[test]
fn pops_come_back_in_reverse_push_order() {
    let mut v = MyVec::new();
    let input = [5, -3, 12, 0, 7, 7, 99, -40, 1, 2, 3];
    for x in input {
        v.push(x);
    }
    let mut out = Vec::new();
    for _ in 0..input.len() {
        out.push(v.pop().unwrap());
    }
    let mut expected = input.to_vec();
    expected.reverse();
    assert_eq!(out, expected);
    assert_eq!(v.len(), 0);
}

#[test]
fn length_tracks_pushes_and_successful_pops() {
    let mut v = MyVec::new();
    let mut pushes = 0usize;
    let mut popped = 0usize;
    for round in 0..40u32 {
        if round % 3 == 2 {
            if v.pop().is_some() {
                popped += 1;
            }
        } else {
            v.push(round);
            pushes += 1;
        }
        assert_eq!(v.len(), pushes - popped);
        assert!(v.len() <= v.capacity());
    }
    for _ in 0..50 {
        if v.pop().is_some() {
            popped += 1;
        }
        assert_eq!(v.len(), pushes - popped);
    }
    assert_eq!(v.len(), 0);
}

#[test]
fn get_is_absent_past_length_even_below_capacity() {
    let mut v = MyVec::new();
    v.push('x');
    v.push('y');
    v.push('z');
    assert_eq!(v.capacity(), 8);
    assert_eq!(v.get(0), Some(&'x'));
    assert_eq!(v.get(2), Some(&'z'));
    for i in 3..8 {
        assert_eq!(v.get(i), None);
    }
    assert_eq!(v.get(usize::MAX), None);
    v.pop();
    assert_eq!(v.get(2), None);
}

#[test]
fn pop_on_fresh_and_drained_buffer_is_none() {
    let mut v: MyVec<String> = MyVec::new();
    assert_eq!(v.pop(), None);
    assert_eq!(v.len(), 0);
    assert_eq!(v.capacity(), 0);
    v.push("only".to_string());
    assert_eq!(v.pop(), Some("only".to_string()));
    assert_eq!(v.pop(), None);
    assert_eq!(v.pop(), None);
    assert_eq!(v.len(), 0);
    assert_eq!(v.capacity(), 8);
    v.push("again".to_string());
    assert_eq!(v.get(0), Some(&"again".to_string()));
}

struct Counted {
    id: usize,
    drops: Rc<Cell<usize>>,
    order: Rc<std::cell::RefCell<Vec<usize>>>,
}

impl Drop for Counted {
    fn drop(&mut self) {
        self.drops.set(self.drops.get() + 1);
        self.order.borrow_mut().push(self.id);
    }
}

#[test]
fn dropping_buffer_destroys_each_live_element_once_in_order() {
    let drops = Rc::new(Cell::new(0));
    let order = Rc::new(std::cell::RefCell::new(Vec::new()));
    {
        let mut v = MyVec::new();
        for id in 0..12 {
            v.push(Counted { id, drops: drops.clone(), order: order.clone() });
        }
        let popped = v.pop().unwrap();
        assert_eq!(popped.id, 11);
        assert_eq!(drops.get(), 0);
        drop(popped);
        assert_eq!(drops.get(), 1);
    }
    assert_eq!(drops.get(), 12);
    let expected: Vec<usize> = std::iter::once(11).chain(0..11).collect();
    assert_eq!(*order.borrow(), expected);
}

#[test]
fn shared_owner_counts_return_to_one_after_drop() {
    let shared = Rc::new(5u8);
    {
        let mut v = MyVec::new();
        for _ in 0..20 {
            v.push(shared.clone());
        }
        assert_eq!(Rc::strong_count(&shared), 21);
        v.pop();
        assert_eq!(Rc::strong_count(&shared), 20);
    }
    assert_eq!(Rc::strong_count(&shared), 1);
}

#[test]
fn empty_buffer_drop_releases_nothing() {
    let v: MyVec<Rc<u8>> = MyVec::new();
    drop(v);
}
