use linked_stack::second::List;

#[test]
fn second_basics() {
    let mut list = List::new();

    // Check None list behaves right
    assert_eq!(list.pop(), None);

    // Populate list
    list.push(1);
    list.push(2);
    list.push(3);

    // Check normal removal
    assert_eq!(list.pop(), Some(3));
    assert_eq!(list.pop(), Some(2));

    // Push some more just to make sure nothing's corrupted
    list.push(4);
    list.push(5);

    // Check normal removal
    assert_eq!(list.pop(), Some(5));
    assert_eq!(list.pop(), Some(4));

    // Check exhaustion
    assert_eq!(list.pop(), Some(1));
    assert_eq!(list.pop(), None);
}

#[test]
fn peek() {
    let mut list = List::new();
    assert_eq!(list.peek(), None);
    assert_eq!(list.peek_mut(), None);
    list.push(1);
    list.push(2);
    list.push(3);

    assert_eq!(list.peek(), Some(&3));
    assert_eq!(list.peek_mut(), Some(&mut 3));

    list.peek_mut().map(|value| *value = 42);

    assert_eq!(list.peek(), Some(&42));
    assert_eq!(list.pop(), Some(42));
}

#[test]
fn into_iter() {
    let mut list = List::new();
    list.push(1);
    list.push(2);
    list.push(3);

    let mut iter = list.into_iter();
    assert_eq!(iter.next(), Some(3));
    assert_eq!(iter.next(), Some(2));
    assert_eq!(iter.next(), Some(1));
    assert_eq!(iter.next(), None);
}

#[test]
fn iter() {
    let mut list = List::new();
    list.push(1);
    list.push(2);
    list.push(3);

    let mut iter = list.iter();
    assert_eq!(iter.next(), Some(&3));
    assert_eq!(iter.next(), Some(&2));
    assert_eq!(iter.next(), Some(&1));
}

#[test]
fn iter_mut() {
    let mut list = List::new();
    list.push(1);
    list.push(2);
    list.push(3);

    let mut iter = list.iter_mut();
    assert_eq!(iter.next(), Some(&mut 3));
    assert_eq!(iter.next(), Some(&mut 2));
    assert_eq!(iter.next(), Some(&mut 1));
}

#[test]
fn second_lifo_order_with_strings() {
    let mut list = List::new();
    let words = ["alpha", "beta", "gamma", "delta"];
    for w in words.iter() {
        list.push(String::from(*w));
    }
    for w in words.iter().rev() {
        assert_eq!(list.pop(), Some(String::from(*w)));
    }
    assert_eq!(list.pop(), None);
    assert_eq!(list.pop(), None);
}

#[test]
fn peek_on_empty_changes_nothing() {
    let mut list: List<u8> = List::new();
    assert_eq!(list.peek(), None);
    assert_eq!(list.peek_mut(), None);
    assert_eq!(list.pop(), None);

    list.push(9);
    assert_eq!(list.pop(), Some(9));
    assert_eq!(list.peek(), None);
    assert_eq!(list.peek_mut(), None);
    assert_eq!(list.pop(), None);
}

#[test]
fn peek_leaves_the_top_in_place() {
    let mut list = List::new();
    list.push(10);
    list.push(20);
    assert_eq!(list.peek(), Some(&20));
    assert_eq!(list.peek(), Some(&20));
    assert_eq!(list.pop(), Some(20));
    assert_eq!(list.peek(), Some(&10));
}

#[test]
fn peek_mut_writes_only_the_top() {
    let mut list = List::new();
    list.push(1);
    list.push(2);
    list.push(3);
    if let Some(v) = list.peek_mut() {
        *v = 42;
    }
    assert_eq!(list.peek(), Some(&42));
    assert_eq!(list.pop(), Some(42));
    assert_eq!(list.pop(), Some(2));
    assert_eq!(list.pop(), Some(1));
    assert_eq!(list.pop(), None);
}

#[test]
fn into_iter_stays_exhausted() {
    let mut list = List::new();
    list.push(1);
    list.push(2);
    list.push(3);
    let mut iter = list.into_iter();
    assert_eq!(iter.next(), Some(3));
    assert_eq!(iter.next(), Some(2));
    assert_eq!(iter.next(), Some(1));
    assert_eq!(iter.next(), None);
    assert_eq!(iter.next(), None);
    assert_eq!(iter.next(), None);
}

#[test]
fn into_iter_of_empty_list() {
    let list: List<i64> = List::new();
    let mut iter = list.into_iter();
    assert_eq!(iter.next(), None);
    assert_eq!(iter.next(), None);
}

#[test]
fn iter_leaves_the_list_unchanged() {
    let mut list = List::new();
    list.push(1);
    list.push(2);
    list.push(3);
    {
        let mut iter = list.iter();
        assert_eq!(iter.next(), Some(&3));
        assert_eq!(iter.next(), Some(&2));
        assert_eq!(iter.next(), Some(&1));
        assert_eq!(iter.next(), None);
        assert_eq!(iter.next(), None);
    }
    let mut again = list.iter();
    assert_eq!(again.next(), Some(&3));
    assert_eq!(list.peek(), Some(&3));
    assert_eq!(list.pop(), Some(3));
    assert_eq!(list.pop(), Some(2));
    assert_eq!(list.pop(), Some(1));
    assert_eq!(list.pop(), None);
}

#[test]
fn iter_of_empty_list() {
    let list: List<i32> = List::new();
    let mut iter = list.iter();
    assert_eq!(iter.next(), None);
}

#[test]
fn iter_mut_writes_reach_the_list() {
    let mut list = List::new();
    list.push(1);
    list.push(2);
    list.push(3);
    {
        let mut iter = list.iter_mut();
        while let Some(v) = iter.next() {
            *v *= 10;
        }
        assert_eq!(iter.next(), None);
    }
    assert_eq!(list.pop(), Some(30));
    assert_eq!(list.pop(), Some(20));
    assert_eq!(list.pop(), Some(10));
    assert_eq!(list.pop(), None);
}

#[test]
fn iter_mut_of_empty_list() {
    let mut list: List<i32> = List::new();
    let mut iter = list.iter_mut();
    assert_eq!(iter.next(), None);
    assert_eq!(iter.next(), None);
}

#[test]
fn second_long_list_teardown() {
    let mut list = List::new();
    for i in 0..100_000u32 {
        list.push(i);
    }
    drop(list);
}

#[test]
fn long_into_iter_dropped_early() {
    let mut list = List::new();
    for i in 0..200_000u64 {
        list.push(i);
    }
    let mut iter = list.into_iter();
    assert_eq!(iter.next(), Some(199_999));
    assert_eq!(iter.next(), Some(199_998));
}
