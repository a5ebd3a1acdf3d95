use linked_lists::generic::List;

#[test]
fn second_basic() {
    let mut list = List::new();
    assert_eq!(list.pop(), None);

    list.push(3);
    list.push(2);
    list.push(1);

    assert_eq!(list.pop(), Some(1));
    assert_eq!(list.pop(), Some(2));

    list.push(5);
    list.push(4);

    assert_eq!(list.pop(), Some(4));
    assert_eq!(list.pop(), Some(5));
    assert_eq!(list.pop(), Some(3));

    assert_eq!(list.pop(), None);
}

#[test]
fn second_long_list() {
    let mut list = List::new();
    for i in 0..100000 {
        list.push(i);
    }
    drop(list);
}

#[test]
fn peek() {
    let mut list = List::new();
    assert_eq!(list.peek(), None);

    list.push(3);
    list.push(2);
    list.push(1);

    assert_eq!(list.peek(), Some(&1));
    list.peek_mut().map(|value| *value = 42);

    assert_eq!(list.peek(), Some(&42));
    assert_eq!(list.pop(), Some(42));
}

#[test]
fn into_iter() {
    let mut list = List::new();
    list.push(3);
    list.push(2);
    list.push(1);
    let mut iter = list.into_iter();
    assert_eq!(iter.next(), Some(1));
    assert_eq!(iter.next(), Some(2));
    assert_eq!(iter.next(), Some(3));
    assert_eq!(iter.next(), None);
}

#[test]
fn iter() {
    let mut list = List::new();
    list.push(1);
    list.push(2);
    list.push(3);

    let mut iter = list.iter();
    assert_eq!(iter.next(), Some(&3));
    assert_eq!(iter.next(), Some(&2));
    assert_eq!(iter.next(), Some(&1));
}

#[test]
fn iter_mut() {
    let mut list = List::new();
    list.push(1);
    list.push(2);
    list.push(3);
    let mut iter = list.iter_mut();
    assert_eq!(iter.next(), Some(&mut 3));
    assert_eq!(iter.next(), Some(&mut 2));
    assert_eq!(iter.next(), Some(&mut 1));
}

#[test]
fn into_iter_stays_exhausted() {
    let mut list = List::new();
    list.push(1);
    let mut iter = list.into_iter();
    assert_eq!(iter.next(), Some(1));
    assert_eq!(iter.next(), None);
    assert_eq!(iter.next(), None);
    assert_eq!(iter.next(), None);
}

#[test]
fn iter_leaves_list_reiterable() {
    let mut list = List::new();
    list.push(1);
    list.push(2);
    list.push(3);

    let mut first_pass = Vec::new();
    let mut iter = list.iter();
    while let Some(v) = iter.next() {
        first_pass.push(*v);
    }

    let mut second_pass = Vec::new();
    let mut iter = list.iter();
    while let Some(v) = iter.next() {
        second_pass.push(*v);
    }

    assert_eq!(first_pass, vec![3, 2, 1]);
    assert_eq!(second_pass, vec![3, 2, 1]);
    assert_eq!(list.pop(), Some(3));
    assert_eq!(list.pop(), Some(2));
    assert_eq!(list.pop(), Some(1));
    assert_eq!(list.pop(), None);
}

#[test]
fn iter_mut_writes_are_kept() {
    let mut list = List::new();
    list.push(1);
    list.push(2);
    list.push(3);

    let mut iter = list.iter_mut();
    while let Some(v) = iter.next() {
        *v += 10;
    }

    assert_eq!(list.pop(), Some(13));
    assert_eq!(list.pop(), Some(12));
    assert_eq!(list.pop(), Some(11));
    assert_eq!(list.pop(), None);
}

#[test]
fn peek_mut_on_empty() {
    let mut list: List<i32> = List::new();
    assert_eq!(list.peek_mut(), None);
    assert_eq!(list.peek(), None);
}

#[test]
fn strings_push_pop() {
    let mut list = List::new();
    list.push(String::from("a"));
    list.push(String::from("b"));
    assert_eq!(list.pop(), Some(String::from("b")));
    assert_eq!(list.peek(), Some(&String::from("a")));
    assert_eq!(list.pop(), Some(String::from("a")));
    assert_eq!(list.pop(), None);
}
