use rjira::{
    AddItem, Assignable, AssignableFromCollection, Assignee, Backlog, BacklogError, BacklogItem,
    Entity, Estimatable, EstimatableFromCollection, FindFromCollection, ItemKind, Story,
    StoryPoint, Task, Title,
};

fn story(title: &str) -> BacklogItem {
    BacklogItem::Story(Story::new(title, None, None))
}

#[test]
fn test_story_point() {
    assert!(!StoryPoint::new(0).is_ok());
    assert!(StoryPoint::new(1).is_ok());
    assert!(StoryPoint::new(21).is_ok());
    assert!(!StoryPoint::new(22).is_ok());
}

#[test]
fn test_story_point_scale_round_trip() {
    for n in [1u8, 2, 3, 5, 8, 13, 21] {
        let p = StoryPoint::new(n).unwrap();
        assert_eq!(p.value(), n);
    }
    for n in [0u8, 4, 6, 7, 9, 12, 14, 20, 34, 255] {
        match StoryPoint::new(n) {
            Err(BacklogError::TypeError(_)) => {},
            _ => panic!("expected a type error"),
        }
    }
}

#[test]
fn test_assignable() {
    let mut assignable = Story::new("", None, None);
    assignable.assign(Assignee::new("test"));
    assert_eq!(assignable.assignee(), Some(&Assignee::new("test")));
}

#[test]
fn test_estimatable() {
    let mut estimatable = Story::new("", None, None);
    estimatable.estimate(StoryPoint::new(2).unwrap());
    assert_eq!(estimatable.point(), Some(StoryPoint::new(2).unwrap()));
}

#[test]
fn add_item_test_add_item() {
    let mut collection = Backlog::new();
    collection.add_item(story("test title"));
    assert_eq!(collection.len(), 1);
}

#[test]
fn test_assign() {
    let mut backlog = Backlog::new();
    let item = story("");
    let id = item.id();
    backlog.add_item(item);
    let result = backlog.assign_item(id, Assignee::new("test"));
    assert!(result.is_ok());
}

#[test]
fn test_assign_expect_fail() {
    let mut backlog = Backlog::new();
    let result = backlog.assign_item(7, Assignee::new("test"));
    assert!(result.is_err());
}

#[test]
fn test_estimate() {
    let mut backlog = Backlog::new();
    let item = story("");
    let id = item.id();
    backlog.add_item(item);
    let result = backlog.estimate_item(id, StoryPoint::new(1).unwrap());
    assert!(result.is_ok());
}

#[test]
fn test_estimate_expect_fail() {
    let mut backlog = Backlog::new();
    let result = backlog.estimate_item(7, StoryPoint::new(1).unwrap());
    assert!(result.is_err());
}

#[test]
fn test_find_from_collection() {
    let mut backlog = Backlog::new();
    let item = story("test");
    let id = item.id();
    backlog.add_item(item);
    assert!(backlog.find_by_id(id.wrapping_add(1)).is_none());
    assert!(backlog.find_by_id(id).is_some());
}

#[test]
fn test_fresh_identities_differ() {
    let a = Story::new("a", None, None);
    let b = Story::new("b", None, None);
    assert_ne!(a.id(), b.id());
}

#[test]
fn test_item_getters() {
    let point = StoryPoint::new(5).unwrap();
    let task = Task::new("write docs", Some(point), Some(Assignee::new("sam")));
    let item = BacklogItem::Task(task);
    assert_eq!(item.kind(), ItemKind::Task);
    assert_eq!(item.title(), &Title::new("write docs"));
    assert_eq!(item.point(), Some(point));
    assert_eq!(item.assignee(), Some(&Assignee::new("sam")));
}

#[test]
fn test_assign_then_find_overwrites() {
    let mut backlog = Backlog::new();
    let item = story("t");
    let id = item.id();
    backlog.add_item(item);

    backlog.assign_item(id, Assignee::new("first")).unwrap();
    let found = backlog.find_by_id(id).unwrap();
    assert_eq!(found.assignee(), Some(&Assignee::new("first")));

    backlog.assign_item(id, Assignee::new("second")).unwrap();
    let found = backlog.find_by_id(id).unwrap();
    assert_eq!(found.assignee(), Some(&Assignee::new("second")));
}

#[test]
fn test_missing_id_leaves_backlog_unchanged() {
    let mut backlog = Backlog::new();
    let item = story("kept");
    let id = item.id();
    backlog.add_item(item);
    backlog.assign_item(id, Assignee::new("kept owner")).unwrap();
    let before = backlog.items();

    let missing = id.wrapping_add(1);
    match backlog.assign_item(missing, Assignee::new("nobody")) {
        Err(BacklogError::NotFound(_)) => {},
        _ => panic!("expected a not-found error"),
    }
    match backlog.estimate_item(missing, StoryPoint::new(3).unwrap()) {
        Err(BacklogError::NotFound(_)) => {},
        _ => panic!("expected a not-found error"),
    }

    let after = backlog.items();
    assert_eq!(before, after);
}

#[test]
fn test_add_duplicate_id_silently_replaces() {
    let mut backlog = Backlog::new();
    backlog.add_item(story("first"));
    backlog.add_item(story("anchor"));

    // An item under an already present identity replaces the stored one in
    // place: the count and the position are kept, with no error.
    let mut dup = backlog.items()[0].clone();
    dup.assign(Assignee::new("other"));
    backlog.add_item(dup);

    assert_eq!(backlog.len(), 2);
    let items = backlog.items();
    assert_eq!(items[0].title(), &Title::new("first"));
    assert_eq!(items[0].assignee(), Some(&Assignee::new("other")));
    assert_eq!(items[1].title(), &Title::new("anchor"));
}

#[test]
fn test_parts_round_trip() {
    let mut backlog = Backlog::new();
    let s1 = BacklogItem::Story(Story::new(
        "estimated story",
        Some(StoryPoint::new(3).unwrap()),
        None,
    ));
    let t1 = BacklogItem::Task(Task::new("assigned task", None, Some(Assignee::new("kim"))));
    let s2 = BacklogItem::Story(Story::new("bare story", None, None));
    backlog.add_item(s1);
    backlog.add_item(t1);
    backlog.add_item(s2);

    let id = backlog.id();
    let items = backlog.items();
    let rebuilt = Backlog::from_parts(id, items);

    assert_eq!(rebuilt.id(), id);
    assert_eq!(rebuilt.len(), 3);
    let old_items = backlog.items();
    let new_items = rebuilt.items();
    assert_eq!(old_items, new_items);
    assert_eq!(new_items[0].title(), &Title::new("estimated story"));
    assert_eq!(new_items[0].point(), Some(StoryPoint::new(3).unwrap()));
    assert_eq!(new_items[1].kind(), ItemKind::Task);
    assert_eq!(new_items[1].assignee(), Some(&Assignee::new("kim")));
    assert_eq!(new_items[2].title(), &Title::new("bare story"));
    assert_eq!(new_items[2].point(), None);
    assert_eq!(new_items[2].assignee(), None);
}

#[test]
fn test_clone_keeps_entries() {
    let mut backlog = Backlog::new();
    backlog.add_item(story("a"));
    backlog.add_item(story("b"));
    let copy = backlog.clone();
    assert_eq!(copy.id(), backlog.id());
    assert_eq!(copy.items(), backlog.items());
}

#[test]
fn test_empty_backlog() {
    let backlog = Backlog::default();
    assert!(backlog.is_empty());
    assert_eq!(backlog.len(), 0);
    assert!(backlog.items().is_empty());
}
