use lists::second::List;

#[test]
fn lifo_order_then_none() {
    let mut list = List::new();
    let n: u64 = 1000;
    for i in 0..n {
        list.push(i);
    }
    for i in (0..n).rev() {
        assert_eq!(list.pop(), Some(i));
    }
    assert_eq!(list.pop(), None);
    assert_eq!(list.pop(), None);
}

#[test]
fn fresh_list_is_empty() {
    let mut list: List<String> = List::new();
    assert_eq!(list.pop(), None);
    assert_eq!(list.peek(), None);
    assert_eq!(list.peek_mut(), None);
    assert_eq!(list.iter().next(), None);
    assert_eq!(list.iter_mut().next(), None);
    assert_eq!(list.into_iter().next(), None);
}

#[test]
fn peek_sees_what_pop_removes() {
    let mut list = List::new();
    list.push(String::from("a"));
    list.push(String::from("b"));
    assert_eq!(list.peek(), Some(&String::from("b")));
    assert_eq!(list.peek_mut(), Some(&mut String::from("b")));
    if let Some(top) = list.peek_mut() {
        top.push('!');
    }
    assert_eq!(list.peek(), Some(&String::from("b!")));
    assert_eq!(list.pop(), Some(String::from("b!")));
    assert_eq!(list.peek(), Some(&String::from("a")));
    assert_eq!(list.pop(), Some(String::from("a")));
    assert_eq!(list.peek(), None);
}

#[test]
fn consuming_iterator_matches_pops() {
    let mut by_pop = List::new();
    let mut by_iter = List::new();
    for i in [7, 3, 9, 3, 1] {
        by_pop.push(i);
        by_iter.push(i);
    }
    let mut popped = Vec::new();
    while let Some(x) = by_pop.pop() {
        popped.push(x);
    }
    let mut iterated = Vec::new();
    let mut it = by_iter.into_iter();
    while let Some(x) = it.next() {
        iterated.push(x);
    }
    assert_eq!(popped, vec![1, 3, 9, 3, 7]);
    assert_eq!(iterated, popped);
    assert_eq!(it.next(), None);
    assert_eq!(by_pop.pop(), None);
}

#[test]
fn borrowing_iterator_leaves_list_unchanged() {
    let mut list = List::new();
    for i in 1..=4 {
        list.push(i);
    }
    let mut seen = Vec::new();
    let mut it = list.iter();
    while let Some(x) = it.next() {
        seen.push(*x);
    }
    assert_eq!(seen, vec![4, 3, 2, 1]);
    let mut again = Vec::new();
    let mut it = list.iter();
    while let Some(x) = it.next() {
        again.push(*x);
    }
    assert_eq!(again, seen);
    for expected in [4, 3, 2, 1] {
        assert_eq!(list.pop(), Some(expected));
    }
    assert_eq!(list.pop(), None);
}

#[test]
fn mutating_iterator_increments_in_place() {
    let mut list = List::new();
    for i in [10, 20, 30] {
        list.push(i);
    }
    let mut it = list.iter_mut();
    while let Some(x) = it.next() {
        *x += 1;
    }
    assert_eq!(list.pop(), Some(31));
    assert_eq!(list.pop(), Some(21));
    assert_eq!(list.pop(), Some(11));
    assert_eq!(list.pop(), None);
}

#[test]
fn long_list_drops_without_overflow() {
    let mut list = List::new();
    for i in 0..300_000u32 {
        list.push(i);
    }
    drop(list);
}

#[test]
fn partly_drained_consuming_iterator_drops_the_rest() {
    let mut list = List::new();
    for i in 0..300_000u32 {
        list.push(i);
    }
    let mut it = list.into_iter();
    assert_eq!(it.next(), Some(299_999));
    drop(it);
}

#[test]
fn push_peek_mut_pop_scenario() {
    let mut list = List::new();
    list.push(1);
    list.push(2);
    list.push(3);
    assert_eq!(list.peek(), Some(&3));
    if let Some(head) = list.peek_mut() {
        *head += 1;
    }
    assert_eq!(list.pop(), Some(4));
    assert_eq!(list.pop(), Some(2));
    assert_eq!(list.pop(), Some(1));
    assert_eq!(list.pop(), None);

    let mut a = List::new();
    a.push(1); a.push(2); a.push(3);
    let mut it = a.iter();
    assert_eq!((it.next(), it.next(), it.next(), it.next()), (Some(&3), Some(&2), Some(&1), None));
    let mut m = a.iter_mut();
    assert_eq!(m.next().map(|x| *x), Some(3));
    assert_eq!(m.next().map(|x| *x), Some(2));
    assert_eq!(m.next().map(|x| *x), Some(1));
    assert_eq!(m.next(), None);
    let mut c = a.into_iter();
    assert_eq!((c.next(), c.next(), c.next(), c.next()), (Some(3), Some(2), Some(1), None));
}

#[test]
fn increment_all_adds_one_in_place() {
    let mut list = List::new();
    for i in [5i32, -1, 41] {
        list.push(i);
    }
    lists::laws::increment_all(&mut list);
    assert_eq!(list.pop(), Some(42));
    assert_eq!(list.pop(), Some(0));
    assert_eq!(list.pop(), Some(6));
    assert_eq!(list.pop(), None);
}
