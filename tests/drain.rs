use std::rc::Rc;

use stackvec::StackVec;

fn from_slice(xs: &[i32]) -> StackVec<i32, 8> {
    StackVec::from_vec(xs.to_vec()).unwrap()
}

/// An element that keeps a shared counter alive while it exists.
struct Droppable(u32, Rc<()>);

fn live(counter: &Rc<()>) -> usize {
    Rc::strong_count(counter) - 1
}

fn droppables(counter: &Rc<()>, n: u32) -> StackVec<Droppable, 8> {
    let mut v = Vec::new();
    for i in 1..=n {
        v.push(Droppable(i, counter.clone()));
    }
    StackVec::from_vec(v).unwrap()
}

#[test]
fn drain_front() {
    let mut vec = from_slice(&[1, 2, 3, 4]);
    let mut it = vec.drain(0, 1);
    assert_eq!(it.next(), Some(1));
    it.discard();
    assert_eq!(vec.as_slice(), &[2, 3, 4]);
}

#[test]
fn drain_middle() {
    let mut vec = from_slice(&[1, 2, 3, 4]);
    let mut it = vec.drain(1, 3);
    assert_eq!(it.next(), Some(2));
    assert_eq!(it.next(), Some(3));
    it.discard();
    assert_eq!(vec.as_slice(), &[1, 4]);
}

#[test]
fn drain_end() {
    let mut vec = from_slice(&[1, 2, 3, 4]);
    let mut it = vec.drain(3, 4);
    assert_eq!(it.next(), Some(4));
    it.discard();
    assert_eq!(vec.as_slice(), &[1, 2, 3]);
}

#[test]
fn drain_drop_rest() {
    let counter = Rc::new(());
    let mut vec = droppables(&counter, 4);
    assert_eq!(live(&counter), 4);

    let mut iter = vec.drain(2, 4);
    assert_eq!(iter.next().unwrap().0, 3);
    iter.discard();
    assert_eq!(live(&counter), 2);

    assert_eq!(vec.len(), 2);
    assert_eq!(vec.remove(0).0, 1);
    assert_eq!(live(&counter), 1);

    drop(vec);
    assert_eq!(live(&counter), 0);
}

#[test]
fn as_slice_shows_what_is_left() {
    let mut vec: StackVec<char, 3> = StackVec::from_vec(vec!['a', 'b', 'c']).unwrap();
    let mut drain = vec.drain(0, 3);
    assert_eq!(drain.as_slice(), &['a', 'b', 'c']);
    let _ = drain.next().unwrap();
    assert_eq!(drain.as_slice(), &['b', 'c']);
    let _ = drain.next_back().unwrap();
    assert_eq!(drain.as_slice(), &['b']);
    drain.discard();
    assert!(vec.is_empty());
}

#[test]
fn pull_one_from_middle_then_discard() {
    let mut vec = from_slice(&[1, 2, 3, 4]);
    let mut it = vec.drain(1, 3);
    assert_eq!(it.next(), Some(2));
    it.discard();
    assert_eq!(vec.as_slice(), &[1, 4]);
}

#[test]
fn pull_one_from_range_at_end_then_discard() {
    let mut vec = from_slice(&[1, 2, 3, 4]);
    let mut it = vec.drain(2, 4);
    assert_eq!(it.next(), Some(3));
    it.discard();
    assert_eq!(vec.as_slice(), &[1, 2]);
}

#[test]
fn unpulled_element_dropped_once_on_discard() {
    let counter = Rc::new(());
    let mut vec = droppables(&counter, 4);
    let mut it = vec.drain(2, 4);
    let pulled = it.next().unwrap();
    assert_eq!(pulled.0, 3);
    assert_eq!(live(&counter), 4);
    it.discard();
    assert_eq!(live(&counter), 3);
    assert_eq!(vec.len(), 2);
    drop(pulled);
    assert_eq!(live(&counter), 2);
    let ids: Vec<u32> = vec.as_slice().iter().map(|d| d.0).collect();
    assert_eq!(ids, vec![1, 2]);
}

#[test]
fn full_drain_removes_every_range() {
    let orig = [10, 20, 30, 40, 50];
    for start in 0..=orig.len() {
        for end in start..=orig.len() {
            let mut vec = from_slice(&orig);
            let mut it = vec.drain(start, end);
            let mut got = Vec::new();
            while let Some(x) = it.next() {
                got.push(x);
            }
            assert_eq!(got, orig[start..end].to_vec());
            it.discard();
            let mut expect = orig[..start].to_vec();
            expect.extend_from_slice(&orig[end..]);
            assert_eq!(vec.as_slice(), &expect[..]);
        }
    }
}

#[test]
fn partial_pulls_give_same_vector() {
    let orig = [1, 2, 3, 4, 5, 6];
    let (start, end) = (1, 5);
    for pulls in 0..=(end - start) {
        let mut vec = from_slice(&orig);
        let mut it = vec.drain(start, end);
        for k in 0..pulls {
            assert_eq!(it.next(), Some(orig[start + k]));
        }
        assert_eq!(it.len(), end - start - pulls);
        it.discard();
        assert_eq!(vec.as_slice(), &[1, 6]);
    }
}

#[test]
fn interleaved_pulls_cover_range_once() {
    let orig = [1, 2, 3, 4, 5, 6, 7];
    let patterns: [&[bool]; 4] = [
        &[true, false, true, false, true],
        &[false, false, false, false, false],
        &[true, true, false, true, false],
        &[false, true, true, false, false],
    ];
    for pattern in patterns.iter() {
        let mut vec = from_slice(&orig);
        let mut it = vec.drain(1, 6);
        let mut front = Vec::new();
        let mut back = Vec::new();
        for &from_front in pattern.iter() {
            if from_front {
                front.push(it.next().unwrap());
            } else {
                back.push(it.next_back().unwrap());
            }
        }
        assert_eq!(it.next(), None);
        assert_eq!(it.next_back(), None);
        back.reverse();
        front.extend(back);
        assert_eq!(front, vec![2, 3, 4, 5, 6]);
        it.discard();
        assert_eq!(vec.as_slice(), &[1, 7]);
    }
}

#[test]
fn zero_sized_elements_drain() {
    let mut vec: StackVec<(), 8> = StackVec::from_vec(vec![(); 6]).unwrap();
    let mut it = vec.drain(1, 4);
    assert_eq!(it.next(), Some(()));
    assert_eq!(it.len(), 2);
    it.discard();
    assert_eq!(vec.len(), 3);
}

#[test]
fn empty_range_leaves_vector_unchanged() {
    let mut vec = from_slice(&[1, 2, 3, 4]);
    let mut it = vec.drain(2, 2);
    assert_eq!(it.len(), 0);
    assert_eq!(it.next(), None);
    assert_eq!(it.next_back(), None);
    it.discard();
    assert_eq!(vec.as_slice(), &[1, 2, 3, 4]);
}

#[test]
fn size_hint_is_exact() {
    let mut vec = from_slice(&[1, 2, 3, 4, 5]);
    let mut it = vec.drain(0, 4);
    assert_eq!(it.size_hint(), (4, Some(4)));
    assert_eq!(it.next_back(), Some(4));
    assert_eq!(it.size_hint(), (3, Some(3)));
    it.discard();
    assert_eq!(vec.as_slice(), &[5]);
}

#[test]
fn capacity_is_enforced() {
    assert!(StackVec::<i32, 2>::from_vec(vec![1, 2, 3]).is_none());
    let mut vec: StackVec<i32, 2> = StackVec::new();
    assert_eq!(vec.capacity(), 2);
    assert_eq!(vec.push(1), Ok(()));
    assert_eq!(vec.push(2), Ok(()));
    assert_eq!(vec.push(3), Err(3));
    assert_eq!(vec.as_slice(), &[1, 2]);
}
