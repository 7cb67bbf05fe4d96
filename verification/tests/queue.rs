use spotisync::queue::{DownloadQueue, Item, ItemType};

fn item(id: &str, name: &str, t: ItemType) -> Item {
    Item { id: id.to_string(), name: name.to_string(), item_type: t }
}

fn drain(q: &mut DownloadQueue) -> Vec<String> {
    let mut out = Vec::new();
    while let Some(it) = q.next() {
        out.push(it.id);
    }
    out
}

#[test]
fn new_queue_is_empty() {
    let mut q = DownloadQueue::new();
    assert!(q.next().is_none());
}

#[test]
fn next_returns_items_in_order_added() {
    let mut q = DownloadQueue::new();
    q.add(item("a", "A", ItemType::Album));
    q.add(item("b", "B", ItemType::Track));
    q.add(item("c", "C", ItemType::Playlist));
    let first = q.next().unwrap();
    assert_eq!(first, item("a", "A", ItemType::Album));
    assert_eq!(drain(&mut q), vec!["b".to_string(), "c".to_string()]);
    assert!(q.next().is_none());
}

#[test]
fn adding_an_equal_item_twice_queues_it_once() {
    let mut q = DownloadQueue::new();
    q.add(item("a", "A", ItemType::Album));
    q.add(item("a", "A", ItemType::Album));
    assert_eq!(drain(&mut q), vec!["a".to_string()]);
}

#[test]
fn items_differing_in_one_field_are_distinct() {
    let mut q = DownloadQueue::new();
    q.add(item("a", "A", ItemType::Album));
    q.add(item("a", "A", ItemType::Artist));
    q.add(item("a", "B", ItemType::Album));
    q.add(item("b", "A", ItemType::Album));
    let mut kinds = Vec::new();
    while let Some(it) = q.next() {
        kinds.push((it.id, it.name, it.item_type));
    }
    assert_eq!(
        kinds,
        vec![
            ("a".to_string(), "A".to_string(), ItemType::Album),
            ("a".to_string(), "A".to_string(), ItemType::Artist),
            ("a".to_string(), "B".to_string(), ItemType::Album),
            ("b".to_string(), "A".to_string(), ItemType::Album),
        ]
    );
}

#[test]
fn adding_behind_the_front_keeps_the_front() {
    let mut q = DownloadQueue::new();
    q.add(item("a", "A", ItemType::Album));
    q.add(item("b", "B", ItemType::Album));
    q.add(item("c", "C", ItemType::Album));
    assert_eq!(q.next().unwrap().id, "a");
    assert_eq!(drain(&mut q), vec!["b".to_string(), "c".to_string()]);
}

#[test]
fn offers_are_queued_in_first_offer_order() {
    let mut q = DownloadQueue::new();
    for id in ["x", "y", "x", "z", "y", "w", "z"] {
        q.add(item(id, "n", ItemType::Track));
    }
    assert_eq!(
        drain(&mut q),
        vec!["x".to_string(), "y".to_string(), "z".to_string(), "w".to_string()]
    );
}

#[test]
fn a_taken_item_can_be_queued_again() {
    let mut q = DownloadQueue::new();
    q.add(item("a", "A", ItemType::Album));
    assert_eq!(q.next().unwrap().id, "a");
    q.add(item("a", "A", ItemType::Album));
    assert_eq!(q.next().unwrap().id, "a");
    assert!(q.next().is_none());
}

#[test]
fn item_equality_compares_all_fields() {
    assert_eq!(item("a", "A", ItemType::Album), item("a", "A", ItemType::Album));
    assert_ne!(item("a", "A", ItemType::Album), item("a", "A", ItemType::Track));
    assert_ne!(item("a", "A", ItemType::Album), item("b", "A", ItemType::Album));
    assert_ne!(item("a", "A", ItemType::Album), item("a", "B", ItemType::Album));
}
