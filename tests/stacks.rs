use linked_lists::first;
use linked_lists::second;
use linked_lists::third;

#[test]
fn first_push_pop() {
    let mut ll = first::List::new();
    assert_eq!(ll.pop(), None);

    ll.push(1);
    ll.push(2);
    ll.push(4);

    assert_eq!(ll.pop(), Some(4));

    ll.push(3);

    assert_eq!(ll.pop(), Some(3));
    assert_eq!(ll.pop(), Some(2));
    assert_eq!(ll.pop(), Some(1));
    assert_eq!(ll.pop(), None);
}

#[test]
fn first_drop_long_stack() {
    let mut ll = first::List::new();
    let mut i: i32 = 0;
    while i < 200_000 {
        ll.push(i);
        i += 1;
    }
    assert_eq!(ll.pop(), Some(199_999));
}

#[test]
fn second_push_pop() {
    let mut ll = second::List::new();
    assert_eq!(ll.pop(), None);

    ll.push(1);
    ll.push(2);
    ll.push(4);

    assert_eq!(ll.pop(), Some(4));

    ll.push(3);

    assert_eq!(ll.pop(), Some(3));
    assert_eq!(ll.pop(), Some(2));
    assert_eq!(ll.pop(), Some(1));
    assert_eq!(ll.pop(), None);
}

#[test]
fn second_peek() {
    let mut ll = second::List::new();

    assert_eq!(ll.peek(), None);
    assert_eq!(ll.peek_mut(), None);
    ll.push(1);
    ll.push(2);
    ll.push(3);

    assert_eq!(ll.peek(), Some(&3));
    assert_eq!(ll.peek_mut(), Some(&mut 3));

    if let Some(v) = ll.peek_mut() {
        *v += 2
    }

    assert_eq!(ll.peek(), Some(&5));
    assert_eq!(ll.pop(), Some(5));
}

#[test]
fn second_into_iter() {
    let mut ll = second::List::new();
    ll.push(1);
    ll.push(2);
    ll.push(3);

    let mut iter = ll.into_iter();
    assert_eq!(iter.next(), Some(3));
    assert_eq!(iter.next(), Some(2));
    assert_eq!(iter.next(), Some(1));
    assert_eq!(iter.next(), None);
}

#[test]
fn second_iter() {
    let mut ll = second::List::new();
    ll.push(1);
    ll.push(2);
    ll.push(3);

    let mut iter = ll.iter();
    assert_eq!(iter.next(), Some(&3));
    assert_eq!(iter.next(), Some(&2));
    assert_eq!(iter.next(), Some(&1));
    assert_eq!(iter.next(), None);
}

#[test]
fn second_iter_mut() {
    let mut ll = second::List::new();
    ll.push(1);
    ll.push(2);
    ll.push(3);

    let mut iter = ll.iter_mut();
    assert_eq!(iter.next(), Some(&mut 3));
    if let Some(v) = iter.next() {
        *v += 4
    }
    assert_eq!(iter.next(), Some(&mut 1));
    assert_eq!(iter.next(), None);

    let mut iter = ll.iter();
    assert_eq!(iter.next(), Some(&3));
    assert_eq!(iter.next(), Some(&6));
    assert_eq!(iter.next(), Some(&1));
    assert_eq!(iter.next(), None);
}

#[test]
fn second_drop_long_stack() {
    let mut ll = second::List::new();
    let mut i: u32 = 0;
    while i < 200_000 {
        ll.push(i);
        i += 1;
    }
    assert_eq!(ll.peek(), Some(&199_999));
}

#[test]
fn basics() {
    let ll = third::List::new();
    assert_eq!(ll.head(), None);

    let ll = ll.prepend(1).prepend(2).prepend(3);
    assert_eq!(ll.head(), Some(&3));

    let ll = ll.tail();
    assert_eq!(ll.head(), Some(&2));

    let ll = ll.tail();
    assert_eq!(ll.head(), Some(&1));

    let ll = ll.tail();
    assert_eq!(ll.head(), None);
}

#[test]
fn third_iter() {
    let ll = third::List::new().prepend(1).prepend(2).prepend(3);

    let mut iter = ll.iter();
    assert_eq!(iter.next(), Some(&3));
    assert_eq!(iter.next(), Some(&2));
    assert_eq!(iter.next(), Some(&1));
    assert_eq!(iter.next(), None);
}

#[test]
fn third_versions_share_tails() {
    let base = third::List::new().prepend(1).prepend(2);
    let a = base.prepend(10);
    let b = base.prepend(20);
    drop(base);
    assert_eq!(a.head(), Some(&10));
    assert_eq!(b.head(), Some(&20));
    assert_eq!(a.tail().head(), Some(&2));
    assert_eq!(b.tail().tail().head(), Some(&1));
    assert_eq!(third::List::<u8>::new().tail().head(), None);
}

#[test]
fn third_drop_long_chain() {
    let mut ll = third::List::new();
    let mut i: u32 = 0;
    while i < 200_000 {
        ll = ll.prepend(i);
        i += 1;
    }
    let shorter = ll.tail();
    drop(ll);
    assert_eq!(shorter.head(), Some(&199_998));
}
