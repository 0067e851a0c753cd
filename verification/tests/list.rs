use std::cmp::Ordering;
use std::collections::hash_map::DefaultHasher;
use std::hash::Hash;
use std::hash::Hasher;

use rpds::List;

#[test]
fn test_iter() {
    let limit = 1024;
    let mut list = List::new();
    let mut left = limit;

    for i in 0..limit {
        list = list.cons(i);
    }

    let mut iter = list.iter();
    while let Some(v) = iter.next() {
        left -= 1;
        assert_eq!(*v, left);
    }

    assert!(left == 0);
}

#[test]
fn test_iter_size_hint() {
    let vector = List::new().cons(2).cons(1).cons(0);
    let mut iterator = vector.iter();

    assert_eq!(iterator.size_hint(), (3, Some(3)));

    iterator.next();

    assert_eq!(iterator.size_hint(), (2, Some(2)));

    iterator.next();

    assert_eq!(iterator.size_hint(), (1, Some(1)));

    iterator.next();

    assert_eq!(iterator.size_hint(), (0, Some(0)));
}

#[test]
fn test_into_iterator() {
    let list = List::new().cons(3).cons(2).cons(1).cons(0);
    let mut expected = 0;
    let mut left = 4;

    let mut iterator = list.iter();
    while let Some(n) = iterator.next() {
        left -= 1;

        assert!(left >= 0);
        assert_eq!(*n, expected);

        expected += 1;
    }

    assert!(left == 0);
}

#[test]
fn test_is_send() {
    let _: Box<dyn Send> = Box::new(List::<i32>::new());
}

#[test]
fn test_is_sync() {
    let _: Box<dyn Sync> = Box::new(List::<i32>::new());
}

#[test]
fn test_new() {
    let empty_list: List<i32> = List::new();

    match empty_list.head() {
        None => (),
        _ => panic!("should be nil"),
    };

    assert_eq!(empty_list.len(), 0);
    assert!(empty_list.is_empty());
}

#[test]
fn test_head() {
    let empty_list: List<i32> = List::new();
    let singleton_list = List::new().cons("hello");
    let list = List::new().cons(3).cons(2).cons(1).cons(0);

    assert_eq!(empty_list.head(), None);
    assert_eq!(singleton_list.head(), Some(&"hello"));
    assert_eq!(list.head(), Some(&0));
}

#[test]
fn test_tail() {
    let empty_list: List<i32> = List::new();
    let singleton_list = List::new().cons("hello");
    let list = List::new().cons(3).cons(2).cons(1).cons(0);

    assert!(empty_list.tail().is_none());
    assert_eq!(singleton_list.tail().unwrap().head(), None);
    assert_eq!(list.tail().unwrap().head(), Some(&1));

    assert_eq!(list.len(), 4);
    assert_eq!(list.tail().unwrap().len(), 3);
}

#[test]
fn test_from_iterator() {
    let vec: Vec<u32> = vec![10, 11, 12, 13];
    let list: List<u32> = List::from_vec(vec.clone());

    let mut list_iter = list.iter();
    let mut same = true;
    for v in vec.iter() {
        same = same && list_iter.next() == Some(v);
    }
    same = same && list_iter.next().is_none();
    assert!(same);
}

#[test]
fn test_default() {
    let list: List<i32> = List::default();

    assert_eq!(list.head(), None);
    assert_eq!(list.len(), 0);
}

#[test]
fn test_display() {
    let empty_list: List<i32> = List::new();
    let singleton_list = List::new().cons("hello");
    let list = List::new().cons(3).cons(2).cons(1).cons(0);

    assert_eq!(empty_list.to_display_string(), "[]");
    assert_eq!(singleton_list.to_display_string(), "[hello]");
    assert_eq!(list.to_display_string(), "[0, 1, 2, 3]");
}

#[test]
fn test_eq() {
    let list_1 = List::new().cons("a").cons("a");
    let list_1_prime = List::new().cons("a").cons("a");
    let list_2 = List::new().cons("b").cons("a");

    assert_ne!(list_1, list_2);
    assert_eq!(list_1, list_1);
    assert_eq!(list_1, list_1_prime);
    assert_eq!(list_2, list_2);
}

#[test]
fn test_partial_ord() {
    let list_1 = List::new().cons("a");
    let list_1_prime = List::new().cons("a");
    let list_2 = List::new().cons("b");
    let list_3 = List::new().cons(0.0);
    let list_4 = List::new().cons(f32::NAN);

    assert!(list_1.partial_cmp(&list_1_prime) == Some(Ordering::Equal));
    assert!(list_1.partial_cmp(&list_2) == Some(Ordering::Less));
    assert!(list_2.partial_cmp(&list_1) == Some(Ordering::Greater));
    assert!(list_3.partial_cmp(&list_4) == None);
}

#[test]
fn test_ord() {
    let list_1 = List::new().cons("a");
    let list_1_prime = List::new().cons("a");
    let list_2 = List::new().cons("b");

    assert!(list_1.cmp(&list_1_prime) == Ordering::Equal);
    assert!(list_1.cmp(&list_2) == Ordering::Less);
    assert!(list_2.cmp(&list_1) == Ordering::Greater);
}

fn hash<T: Hash>(list: &List<T>) -> u64 {
    let mut hasher = DefaultHasher::new();

    list.hash(&mut hasher);

    hasher.finish()
}

#[test]
fn test_hash() {
    let list_1 = List::new().cons("a");
    let list_1_prime = List::new().cons("a");
    let list_2 = List::new().cons("b").cons("a");

    assert_eq!(hash(&list_1), hash(&list_1));
    assert_eq!(hash(&list_1), hash(&list_1_prime));
    assert_ne!(hash(&list_1), hash(&list_2));
}

#[test]
fn test_clone() {
    let list = List::new().cons("there").cons("hello");
    let clone = list.clone();

    let mut list_iter = list.iter();
    let mut clone_iter = clone.iter();
    let mut same = true;
    loop {
        match (list_iter.next(), clone_iter.next()) {
            (Some(a), Some(b)) => same = same && a == b,
            (None, None) => break,
            _ => {
                same = false;
                break;
            },
        }
    }
    assert!(same);
    assert_eq!(clone.len(), list.len());
}
