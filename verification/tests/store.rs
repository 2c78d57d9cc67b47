use snipboard::snippet::Snippet;
use snipboard::store::SnippetStore;

fn text(s: &str) -> Snippet {
    Snippet::Text { content: s.to_string() }
}

fn file(id: usize) -> Snippet {
    Snippet::FileRef { id, size: 1, name: format!("f{}", id), mime: "text/plain".to_string() }
}

#[test]
fn zero_capacity_is_refused() {
    assert!(SnippetStore::new(0).is_none());
}

#[test]
fn new_store_is_empty() {
    let store = SnippetStore::new(3).unwrap();
    assert_eq!(store.len(), 0);
    assert_eq!(store.capacity(), 3);
    assert!(!store.is_full());
    assert!(store.list().is_empty());
    assert!(store.get_at(0).is_none());
}

#[test]
fn append_with_room_adds_at_the_tail() {
    let mut store = SnippetStore::new(3).unwrap();
    assert_eq!(store.append(text("a")), None);
    assert_eq!(store.append(text("b")), None);
    assert_eq!(store.list(), &vec![text("a"), text("b")]);
    assert_eq!(store.len(), 2);
}

#[test]
fn append_to_full_store_evicts_the_oldest() {
    let mut store = SnippetStore::new(2).unwrap();
    store.append(text("a"));
    store.append(text("b"));
    assert!(store.is_full());
    assert_eq!(store.append(text("c")), Some(text("a")));
    assert_eq!(store.list(), &vec![text("b"), text("c")]);
    assert_eq!(store.append(text("d")), Some(text("b")));
    assert_eq!(store.list(), &vec![text("c"), text("d")]);
}

#[test]
fn capacity_one_keeps_only_the_newest() {
    let mut store = SnippetStore::new(1).unwrap();
    assert_eq!(store.append(text("a")), None);
    assert_eq!(store.append(text("b")), Some(text("a")));
    assert_eq!(store.list(), &vec![text("b")]);
}

#[test]
fn length_never_exceeds_capacity() {
    let mut store = SnippetStore::new(4).unwrap();
    for i in 0..50 {
        store.append(text(&format!("{}", i)));
        assert!(store.len() <= store.capacity());
    }
    assert_eq!(store.len(), 4);
}

#[test]
fn one_past_capacity_keeps_the_last_in_order() {
    let c = 5;
    let mut store = SnippetStore::new(c).unwrap();
    for i in 0..=c {
        store.append(text(&format!("{}", i)));
    }
    let expected: Vec<Snippet> = (1..=c).map(|i| text(&format!("{}", i))).collect();
    assert_eq!(store.list(), &expected);
}

#[test]
fn remove_shifts_later_entries_down() {
    let mut store = SnippetStore::new(4).unwrap();
    store.append(text("a"));
    store.append(text("b"));
    store.append(text("c"));
    assert_eq!(store.remove_at(1), Some(text("b")));
    assert_eq!(store.get_at(1), Some(&text("c")));
    assert_eq!(store.get_at(0), Some(&text("a")));
    assert_eq!(store.get_at(2), None);
    assert_eq!(store.len(), 2);
}

#[test]
fn remove_out_of_range_changes_nothing() {
    let mut store = SnippetStore::new(4).unwrap();
    store.append(text("a"));
    assert_eq!(store.remove_at(1), None);
    assert_eq!(store.remove_at(usize::MAX), None);
    assert_eq!(store.list(), &vec![text("a")]);
}

#[test]
fn get_at_reads_without_changing() {
    let mut store = SnippetStore::new(2).unwrap();
    store.append(file(3));
    assert_eq!(store.get_at(0), Some(&file(3)));
    assert_eq!(store.get_at(0), Some(&file(3)));
    assert_eq!(store.len(), 1);
}

#[test]
fn end_to_end_capacity_two() {
    let mut store = SnippetStore::new(2).unwrap();
    store.append(text("a"));
    store.append(text("b"));
    store.append(text("c"));
    assert_eq!(store.list(), &vec![text("b"), text("c")]);
    assert_eq!(store.remove_at(0), Some(text("b")));
    assert_eq!(store.list(), &vec![text("c")]);
    assert_eq!(store.remove_at(5), None);
    assert_eq!(store.list(), &vec![text("c")]);
}

#[test]
fn snippet_constructors_and_blob_id() {
    assert_eq!(Snippet::text("t".to_string()), text("t"));
    assert_eq!(Snippet::secret("s".to_string()), Snippet::Secret { content: "s".to_string() });
    let f = Snippet::file(9, 12, "n".to_string(), "m".to_string());
    assert_eq!(f, Snippet::FileRef { id: 9, size: 12, name: "n".to_string(), mime: "m".to_string() });
    assert_eq!(f.blob_id(), Some(9));
    assert!(f.is_file());
    assert_eq!(text("t").blob_id(), None);
    assert!(!text("t").is_file());
    assert_eq!(Snippet::secret("s".to_string()).blob_id(), None);
}
