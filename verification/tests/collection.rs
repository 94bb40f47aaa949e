use todo_api::entity::{CreateTodo, Todo, UpdateTodo};
use todo_api::error::RepositoryError;
use todo_api::memory::TodoDatas;

fn create(store: &mut TodoDatas, text: &str) -> Todo {
    store.create(CreateTodo::new(text.to_string())).unwrap()
}

fn sorted_ids(store: &TodoDatas) -> Vec<i32> {
    let mut ids: Vec<i32> = store.all().iter().map(|t| t.id).collect();
    ids.sort();
    ids
}

#[test]
fn new_collection_is_empty() {
    let store = TodoDatas::new();
    assert_eq!(store.len(), 0);
    assert_eq!(store.all(), vec![]);
    assert_eq!(store.find(1), Err(RepositoryError::NotFound(1)));
}

#[test]
fn creation_returns_uncompleted_todo_with_the_text_and_next_identifier() {
    let mut store = TodoDatas::new();
    assert_eq!(
        store.create(CreateTodo::new("a".to_string())),
        Ok(Todo {
            id: 1,
            text: "a".to_string(),
            completed: false
        })
    );
    assert_eq!(
        store.create(CreateTodo::new("b".to_string())),
        Ok(Todo {
            id: 2,
            text: "b".to_string(),
            completed: false
        })
    );
    assert_eq!(store.len(), 2);
}

#[test]
fn lookup_after_creation_returns_an_equal_todo() {
    let mut store = TodoDatas::new();
    let created = create(&mut store, "look me up");
    assert_eq!(store.find(created.id), Ok(created));
}

#[test]
fn identifier_of_a_deleted_todo_is_not_handed_out_again() {
    let mut store = TodoDatas::new();
    let first = create(&mut store, "first");
    let second = create(&mut store, "second");
    assert_eq!(store.delete(first.id), Ok(()));
    let third = create(&mut store, "third");
    assert_eq!(third.id, 3);
    assert_eq!(store.find(second.id), Ok(second));
    assert_eq!(store.find(first.id), Err(RepositoryError::NotFound(1)));
    assert_eq!(sorted_ids(&store), vec![2, 3]);
}

#[test]
fn listing_holds_the_survivors_of_creations_and_deletions() {
    let mut store = TodoDatas::new();
    for n in 0..10 {
        create(&mut store, &format!("task {n}"));
    }
    for id in [2, 5, 7, 10] {
        assert_eq!(store.delete(id), Ok(()));
    }
    assert_eq!(store.len(), 6);
    let rows = store.all();
    assert_eq!(rows.len(), 6);
    assert_eq!(sorted_ids(&store), vec![1, 3, 4, 6, 8, 9]);
    for row in rows {
        assert_eq!(row.text, format!("task {}", row.id - 1));
        assert!(!row.completed);
    }
}

#[test]
fn deleting_everything_leaves_an_empty_listing() {
    let mut store = TodoDatas::new();
    for n in 0..3 {
        create(&mut store, &format!("task {n}"));
    }
    for id in 1..=3 {
        assert_eq!(store.delete(id), Ok(()));
    }
    assert_eq!(store.len(), 0);
    assert_eq!(store.all(), vec![]);
}

#[test]
fn update_with_text_leaves_the_flag() {
    let mut store = TodoDatas::new();
    create(&mut store, "before");
    assert_eq!(
        store.update(1, UpdateTodo::new(None, Some(true))),
        Ok(Todo {
            id: 1,
            text: "before".to_string(),
            completed: true
        })
    );
    assert_eq!(
        store.update(1, UpdateTodo::new(Some("after".to_string()), None)),
        Ok(Todo {
            id: 1,
            text: "after".to_string(),
            completed: true
        })
    );
    assert_eq!(
        store.find(1),
        Ok(Todo {
            id: 1,
            text: "after".to_string(),
            completed: true
        })
    );
}

#[test]
fn update_with_flag_leaves_the_text() {
    let mut store = TodoDatas::new();
    create(&mut store, "same");
    assert_eq!(
        store.update(1, UpdateTodo::new(None, Some(true))),
        Ok(Todo {
            id: 1,
            text: "same".to_string(),
            completed: true
        })
    );
    assert_eq!(
        store.update(1, UpdateTodo::new(None, Some(false))),
        Ok(Todo {
            id: 1,
            text: "same".to_string(),
            completed: false
        })
    );
}

#[test]
fn update_with_nothing_returns_the_todo_as_it_is() {
    let mut store = TodoDatas::new();
    let created = create(&mut store, "as is");
    assert_eq!(store.update(1, UpdateTodo::new(None, None)), Ok(created.clone()));
    assert_eq!(store.find(1), Ok(created));
}

#[test]
fn update_with_both_fields_sets_both() {
    let mut store = TodoDatas::new();
    create(&mut store, "old");
    create(&mut store, "other");
    assert_eq!(
        store.update(1, UpdateTodo::new(Some("new".to_string()), Some(true))),
        Ok(Todo {
            id: 1,
            text: "new".to_string(),
            completed: true
        })
    );
    assert_eq!(store.find(2), Ok(Todo::new(2, "other".to_string())));
    assert_eq!(store.len(), 2);
}

#[test]
fn missing_identifier_is_not_found() {
    let mut store = TodoDatas::new();
    create(&mut store, "only");
    for id in [0, 2, -1, i32::MAX, i32::MIN] {
        assert_eq!(store.find(id), Err(RepositoryError::NotFound(id)));
        assert_eq!(
            store.update(id, UpdateTodo::new(Some("x".to_string()), Some(true))),
            Err(RepositoryError::NotFound(id))
        );
        assert_eq!(store.delete(id), Err(RepositoryError::NotFound(id)));
    }
    assert_eq!(store.all(), vec![Todo::new(1, "only".to_string())]);
}

#[test]
fn second_deletion_is_not_found() {
    let mut store = TodoDatas::new();
    create(&mut store, "once");
    assert_eq!(store.delete(1), Ok(()));
    assert_eq!(store.delete(1), Err(RepositoryError::NotFound(1)));
    assert_eq!(store.find(1), Err(RepositoryError::NotFound(1)));
}

#[test]
fn returned_todo_is_a_copy() {
    let mut store = TodoDatas::new();
    let mut mine = create(&mut store, "stored");
    mine.text.push_str(" and changed");
    mine.completed = true;
    assert_eq!(store.find(1), Ok(Todo::new(1, "stored".to_string())));
    let mut rows = store.all();
    rows[0].completed = true;
    assert_eq!(store.all(), vec![Todo::new(1, "stored".to_string())]);
}

#[test]
fn any_text_is_stored_as_it_comes() {
    let mut store = TodoDatas::new();
    let empty = CreateTodo::new(String::new());
    assert!(!empty.is_valid());
    assert_eq!(store.create(empty), Ok(Todo::new(1, String::new())));
    let long = "x".repeat(101);
    let payload = CreateTodo::new(long.clone());
    assert!(!payload.is_valid());
    assert_eq!(store.create(payload), Ok(Todo::new(2, long.clone())));
    assert_eq!(
        store.update(1, UpdateTodo::new(Some(long.clone()), None)),
        Ok(Todo::new(1, long))
    );
    assert_eq!(store.len(), 2);
}

#[test]
fn resumed_collection_counts_on() {
    let mut store = TodoDatas::resuming(41);
    assert_eq!(store.len(), 0);
    assert_eq!(create(&mut store, "answer").id, 42);
    let mut from_negative = TodoDatas::resuming(-5);
    assert_eq!(create(&mut from_negative, "first").id, 1);
    let mut from_zero = TodoDatas::resuming(0);
    assert_eq!(create(&mut from_zero, "first").id, 1);
}

#[test]
fn creation_fails_when_identifiers_are_exhausted() {
    let mut store = TodoDatas::resuming(i32::MAX - 1);
    assert_eq!(create(&mut store, "last").id, i32::MAX);
    assert_eq!(
        store.create(CreateTodo::new("one too many".to_string())),
        Err(RepositoryError::Unexpected(
            "todo identifiers are exhausted".to_string()
        ))
    );
    assert_eq!(store.len(), 1);
    assert_eq!(store.delete(i32::MAX), Ok(()));
    assert!(matches!(
        store.create(CreateTodo::new("still none".to_string())),
        Err(RepositoryError::Unexpected(_))
    ));
    assert_eq!(store.len(), 0);
}
