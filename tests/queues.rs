use linked_lists::fifth;
use linked_lists::fourth;

#[test]
fn fourth_push_pop() {
    let mut ll = fourth::List::new();
    assert_eq!(ll.pop_front(), None);

    ll.push_front(1);
    ll.push_front(2);
    ll.push_front(4);

    assert_eq!(ll.pop_front(), Some(4));

    ll.push_front(3);

    assert_eq!(ll.pop_front(), Some(3));
    assert_eq!(ll.pop_front(), Some(2));
    assert_eq!(ll.pop_front(), Some(1));
    assert_eq!(ll.pop_front(), None);
}

#[test]
fn fourth_peek() {
    let mut ll = fourth::List::new();

    assert!(ll.peek_front().is_none());
    assert!(ll.peek_front_mut().is_none());
    assert!(ll.peek_back().is_none());
    assert!(ll.peek_back_mut().is_none());
    ll.push_front(1);
    ll.push_front(2);
    ll.push_front(3);

    assert_eq!(&*ll.peek_front().unwrap(), &3);
    assert_eq!(&mut *ll.peek_front_mut().unwrap(), &mut 3);
    assert_eq!(&*ll.peek_back().unwrap(), &1);
    assert_eq!(&mut *ll.peek_back_mut().unwrap(), &mut 1);

    if let Some(v) = ll.peek_front_mut() {
        *v += 2
    }
    if let Some(v) = ll.peek_back_mut() {
        *v += 1
    }

    assert_eq!(&*ll.peek_front().unwrap(), &5);
    assert_eq!(&*ll.peek_back().unwrap(), &2);
    assert_eq!(ll.pop_front(), Some(5));
    assert_eq!(ll.pop_back(), Some(2));
}

#[test]
fn fourth_into_iter() {
    let mut ll = fourth::List::new();
    ll.push_front(1);
    ll.push_front(2);
    ll.push_front(3);

    let mut iter = ll.into_iter();
    assert_eq!(iter.next(), Some(3));
    assert_eq!(iter.next_back(), Some(1));
    assert_eq!(iter.next(), Some(2));
    assert_eq!(iter.next(), None);
    assert_eq!(iter.next_back(), None);
}

#[test]
fn fourth_push_back_pop_back() {
    let mut ll = fourth::List::new();
    assert_eq!(ll.pop_back(), None);
    ll.push_back(1);
    ll.push_back(2);
    ll.push_front(0);
    assert_eq!(ll.pop_back(), Some(2));
    assert_eq!(ll.pop_front(), Some(0));
    assert_eq!(ll.pop_back(), Some(1));
    assert_eq!(ll.pop_back(), None);
}

#[test]
fn fifth_push_pop() {
    let mut ll = fifth::List::new();
    assert_eq!(ll.pop(), None);

    ll.push(1);
    ll.push(2);
    ll.push(3);

    assert_eq!(ll.pop(), Some(1));

    ll.push(4);

    assert_eq!(ll.pop(), Some(2));
    assert_eq!(ll.pop(), Some(3));
    assert_eq!(ll.pop(), Some(4));
    assert_eq!(ll.pop(), None);

    ll.push(5);
    ll.push(6);

    assert_eq!(ll.pop(), Some(5));
    assert_eq!(ll.pop(), Some(6));
    assert_eq!(ll.pop(), None);
}

#[test]
fn fifth_into_iter() {
    let mut ll = fifth::List::new();
    ll.push(1);
    ll.push(2);
    ll.push(3);

    let mut iter = ll.into_iter();
    assert_eq!(iter.next(), Some(1));
    assert_eq!(iter.next(), Some(2));
    assert_eq!(iter.next(), Some(3));
    assert_eq!(iter.next(), None);
}

#[test]
fn fifth_iter() {
    let mut ll = fifth::List::new();
    ll.push(1);
    ll.push(2);
    ll.push(3);

    let mut iter = ll.iter();
    assert_eq!(iter.next(), Some(&1));
    assert_eq!(iter.next(), Some(&2));
    assert_eq!(iter.next(), Some(&3));
    assert_eq!(iter.next(), None);
}

#[test]
fn fifth_iter_mut() {
    let mut ll = fifth::List::new();
    ll.push(1);
    ll.push(2);
    ll.push(3);

    let mut iter = ll.iter_mut();
    assert_eq!(iter.next(), Some(&mut 1));
    if let Some(v) = iter.next() {
        *v += 4
    }
    assert_eq!(iter.next(), Some(&mut 3));
    assert_eq!(iter.next(), None);

    let mut iter = ll.iter();
    assert_eq!(iter.next(), Some(&1));
    assert_eq!(iter.next(), Some(&6));
    assert_eq!(iter.next(), Some(&3));
    assert_eq!(iter.next(), None);
}

#[test]
fn fifth_peek() {
    let mut ll = fifth::List::new();

    assert_eq!(ll.peek(), None);
    assert_eq!(ll.peek_mut(), None);
    ll.push(1);
    ll.push(2);
    ll.push(3);

    assert_eq!(ll.peek(), Some(&1));
    assert_eq!(ll.peek_mut(), Some(&mut 1));

    if let Some(v) = ll.peek_mut() {
        *v += 3
    }

    assert_eq!(ll.peek(), Some(&4));
    assert_eq!(ll.pop(), Some(4));
}
