use de_idle::utils::sliding3::Sliding3;

#[test]
fn test_sliding3() {
    let xs: [u8; 5] = [0, 1, 2, 3, 4];
    let ys: Vec<[u8; 3]> = Sliding3::new(xs.to_vec()).collect();
    assert_eq!(ys, vec![[0, 1, 2], [1, 2, 3], [2, 3, 4]])
}

use de_idle::utils::{min_max, point::Point, sequence::Sequence};
use std::collections::VecDeque;

#[test]
fn sliding3_steps_one_window_at_a_time() {
    let mut s = Sliding3::new(vec![7u32, 8, 9, 10]);
    assert_eq!(s.next(), Some([7, 8, 9]));
    assert_eq!(s.next(), Some([8, 9, 10]));
    assert_eq!(s.next(), None);
    assert_eq!(s.next(), None);
}

#[test]
fn sliding3_on_short_inputs_has_no_window() {
    assert!(Sliding3::new(Vec::<u8>::new()).collect().is_empty());
    assert!(Sliding3::new(vec![1u8, 2]).collect().is_empty());
    assert_eq!(Sliding3::new(vec![1u8, 2, 3]).collect(), vec![[1, 2, 3]]);
}

#[test]
fn min_max_finds_both_ends() {
    assert_eq!(min_max(5, &[3, 9, -2, 7]), (-2, 9));
    assert_eq!(min_max(5, &[]), (5, 5));
    assert_eq!(min_max(0, &[0, 0]), (0, 0));
    assert_eq!(min_max(i64::MIN, &[i64::MAX]), (i64::MIN, i64::MAX));
}

#[test]
fn points_give_their_components() {
    assert_eq!((1, 2).fst(), 1);
    assert_eq!((1, 2).snd(), 2);
    let p = (3, 4);
    assert_eq!(*(&p).fst(), 3);
    assert_eq!(*(&p).snd(), 4);
}

#[test]
fn vecdeque_is_a_sequence() {
    let mut d: VecDeque<(i64, i64)> = VecDeque::new();
    assert_eq!(Sequence::len(&&d), 0);
    assert_eq!(Sequence::front(&&d), None);
    d.push_back((1, 2));
    d.push_back((3, 4));
    let r = &d;
    assert_eq!(Sequence::len(&r), 2);
    assert_eq!(Sequence::front(&r), Some(&(1, 2)));
    assert_eq!(Sequence::get(&r, 1), Some(&(3, 4)));
    assert_eq!(Sequence::get(&r, 2), None);
}
