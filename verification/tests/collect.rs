use steel_core::utils::{CollectIn, FromIteratorIn};

/// A collection that records the allocator tag it was built in.
struct Tagged {
    tag: u8,
    items: Vec<i32>,
}

impl FromIteratorIn<i32> for Tagged {
    type Alloc = u8;

    fn from_iter_in<I>(iter: I, alloc: u8) -> Self
    where
        I: IntoIterator<Item = i32>,
    {
        Tagged { tag: alloc, items: iter.into_iter().collect() }
    }
}

#[test]
fn collect_in_builds_in_given_allocator() {
    let built: Tagged = vec![3, 1, 2].into_iter().collect_in(7u8);
    assert_eq!(built.tag, 7);
    assert_eq!(built.items, vec![3, 1, 2]);
}

#[test]
fn collect_in_of_empty_iterator() {
    let built: Tagged = std::iter::empty::<i32>().collect_in(1u8);
    assert_eq!(built.tag, 1);
    assert!(built.items.is_empty());
}
