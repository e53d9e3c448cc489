use todo_store::model::{QueryOptions, Todo, TodoError, UpdateTodoSchema};
use todo_store::store::TodoStore;

fn must_create(store: &mut TodoStore, title: &str, content: &str) -> Todo {
    match store.create(title.to_string(), content.to_string()) {
        Ok(t) => t,
        Err(_) => panic!("create was refused for a fresh title"),
    }
}

fn no_update() -> UpdateTodoSchema {
    UpdateTodoSchema { title: None, content: None, completed: None }
}

#[test]
fn create_sets_defaults_and_generated_id() {
    let mut store = TodoStore::new();
    let t = must_create(&mut store, "Buy milk", "2%");
    assert_eq!(t.title, "Buy milk");
    assert_eq!(t.content, "2%");
    assert!(!t.completed);
    assert_eq!(t.id.len(), 36);
    assert_eq!(t.created_at, t.updated_at);
    assert_eq!(store.len(), 1);
}

#[test]
fn create_generates_distinct_ids() {
    let mut store = TodoStore::new();
    let a = must_create(&mut store, "first", "");
    let b = must_create(&mut store, "second", "");
    assert_ne!(a.id, b.id);
}

#[test]
fn second_create_with_same_title_conflicts_and_changes_nothing() {
    let mut store = TodoStore::new();
    let first = must_create(&mut store, "Buy milk", "2%");
    match store.create("Buy milk".to_string(), "skim".to_string()) {
        Ok(_) => panic!("a taken title must be refused"),
        Err(e) => assert_eq!(e, TodoError::Conflict),
    }
    assert_eq!(store.len(), 1);
    match store.get(&first.id) {
        Ok(t) => {
            assert_eq!(t.title, "Buy milk");
            assert_eq!(t.content, "2%");
        },
        Err(_) => panic!("the first record must still be there"),
    }
}

#[test]
fn get_unknown_id_is_not_found() {
    let store = TodoStore::new();
    match store.get(&"no-such-id".to_string()) {
        Ok(_) => panic!("an empty store holds nothing"),
        Err(e) => assert_eq!(e, TodoError::NotFound),
    }
}

#[test]
fn get_returns_the_matching_record() {
    let mut store = TodoStore::new();
    let a = must_create(&mut store, "a", "one");
    let b = must_create(&mut store, "b", "two");
    match store.get(&a.id) {
        Ok(t) => {
            assert_eq!(t.id, a.id);
            assert_eq!(t.content, "one");
        },
        Err(_) => panic!("record a exists"),
    }
    match store.get(&b.id) {
        Ok(t) => {
            assert_eq!(t.id, b.id);
            assert_eq!(t.content, "two");
        },
        Err(_) => panic!("record b exists"),
    }
}

#[test]
fn update_overrides_only_supplied_fields() {
    let mut store = TodoStore::new();
    let t = must_create(&mut store, "title", "content");
    let body = UpdateTodoSchema { title: None, content: None, completed: Some(true) };
    match store.update(&t.id, &body) {
        Ok(u) => {
            assert_eq!(u.id, t.id);
            assert_eq!(u.title, "title");
            assert_eq!(u.content, "content");
            assert!(u.completed);
            assert_eq!(u.created_at, t.created_at);
            assert!(u.updated_at >= t.updated_at);
        },
        Err(_) => panic!("the record exists"),
    }
}

#[test]
fn update_replaces_title_and_content_when_supplied_non_empty() {
    let mut store = TodoStore::new();
    let t = must_create(&mut store, "old title", "old content");
    let body = UpdateTodoSchema {
        title: Some("new title".to_string()),
        content: Some("new content".to_string()),
        completed: None,
    };
    match store.update(&t.id, &body) {
        Ok(u) => {
            assert_eq!(u.title, "new title");
            assert_eq!(u.content, "new content");
            assert!(!u.completed);
        },
        Err(_) => panic!("the record exists"),
    }
}

#[test]
fn update_treats_empty_strings_as_not_provided() {
    let mut store = TodoStore::new();
    let t = must_create(&mut store, "kept title", "kept content");
    let body = UpdateTodoSchema {
        title: Some(String::new()),
        content: Some(String::new()),
        completed: None,
    };
    match store.update(&t.id, &body) {
        Ok(u) => {
            assert_eq!(u.title, "kept title");
            assert_eq!(u.content, "kept content");
        },
        Err(_) => panic!("the record exists"),
    }
}

#[test]
fn update_keeps_id_and_created_at() {
    let mut store = TodoStore::new();
    let t = must_create(&mut store, "stable", "");
    let body = UpdateTodoSchema {
        title: Some("renamed".to_string()),
        content: Some("filled".to_string()),
        completed: Some(true),
    };
    match store.update(&t.id, &body) {
        Ok(u) => {
            assert_eq!(u.id, t.id);
            assert_eq!(u.created_at, t.created_at);
            assert!(u.created_at <= u.updated_at);
        },
        Err(_) => panic!("the record exists"),
    }
}

#[test]
fn update_unknown_id_is_not_found() {
    let mut store = TodoStore::new();
    must_create(&mut store, "a", "");
    match store.update(&"no-such-id".to_string(), &no_update()) {
        Ok(_) => panic!("an unknown id must be refused"),
        Err(e) => assert_eq!(e, TodoError::NotFound),
    }
    assert_eq!(store.len(), 1);
}

#[test]
fn delete_unknown_id_is_not_found() {
    let mut store = TodoStore::new();
    must_create(&mut store, "a", "");
    match store.delete(&"no-such-id".to_string()) {
        Ok(_) => panic!("an unknown id must be refused"),
        Err(e) => assert_eq!(e, TodoError::NotFound),
    }
    assert_eq!(store.len(), 1);
}

#[test]
fn delete_removes_exactly_the_matching_record() {
    let mut store = TodoStore::new();
    let a = must_create(&mut store, "a", "");
    let b = must_create(&mut store, "b", "");
    let c = must_create(&mut store, "c", "");
    assert!(store.delete(&b.id).is_ok());
    assert_eq!(store.len(), 2);
    let opts = QueryOptions { page: None, limit: None };
    let rest = store.list(&opts);
    assert_eq!(rest.len(), 2);
    assert_eq!(rest[0].id, a.id);
    assert_eq!(rest[1].id, c.id);
}

#[test]
fn delete_then_get_is_not_found() {
    let mut store = TodoStore::new();
    let t = must_create(&mut store, "ephemeral", "");
    assert!(store.delete(&t.id).is_ok());
    match store.get(&t.id) {
        Ok(_) => panic!("a deleted record must not be found"),
        Err(e) => assert_eq!(e, TodoError::NotFound),
    }
}

#[test]
fn list_on_empty_store_is_empty() {
    let store = TodoStore::new();
    let opts = QueryOptions { page: Some(1), limit: Some(10) };
    assert_eq!(store.list(&opts).len(), 0);
}

#[test]
fn list_defaults_to_first_page_of_ten() {
    let mut store = TodoStore::new();
    for i in 0..12 {
        must_create(&mut store, &format!("todo {}", i), "");
    }
    let opts = QueryOptions { page: None, limit: None };
    let page = store.list(&opts);
    assert_eq!(page.len(), 10);
    assert_eq!(page[0].title, "todo 0");
    assert_eq!(page[9].title, "todo 9");
}

#[test]
fn list_slices_by_page_and_limit_in_insertion_order() {
    let mut store = TodoStore::new();
    for i in 0..7 {
        must_create(&mut store, &format!("todo {}", i), "");
    }
    let opts = QueryOptions { page: Some(2), limit: Some(3) };
    let page = store.list(&opts);
    assert_eq!(page.len(), 3);
    assert_eq!(page[0].title, "todo 3");
    assert_eq!(page[1].title, "todo 4");
    assert_eq!(page[2].title, "todo 5");
    let opts = QueryOptions { page: Some(3), limit: Some(3) };
    let last = store.list(&opts);
    assert_eq!(last.len(), 1);
    assert_eq!(last[0].title, "todo 6");
}

#[test]
fn list_page_zero_is_treated_as_the_first_page() {
    let mut store = TodoStore::new();
    for i in 0..3 {
        must_create(&mut store, &format!("todo {}", i), "");
    }
    let zero = store.list(&QueryOptions { page: Some(0), limit: Some(2) });
    let one = store.list(&QueryOptions { page: Some(1), limit: Some(2) });
    assert_eq!(zero.len(), 2);
    assert_eq!(zero[0].title, one[0].title);
    assert_eq!(zero[1].title, one[1].title);
}

#[test]
fn create_on_empty_store_always_succeeds() {
    let mut store = TodoStore::new();
    assert!(store.create("anything".to_string(), String::new()).is_ok());
}

#[test]
fn list_past_the_end_is_empty() {
    let mut store = TodoStore::new();
    must_create(&mut store, "only", "");
    let opts = QueryOptions { page: Some(5), limit: Some(10) };
    assert_eq!(store.list(&opts).len(), 0);
}

#[test]
fn list_does_not_change_the_store() {
    let mut store = TodoStore::new();
    must_create(&mut store, "a", "");
    must_create(&mut store, "b", "");
    let opts = QueryOptions { page: Some(1), limit: Some(1) };
    let _ = store.list(&opts);
    assert_eq!(store.len(), 2);
}

#[test]
fn timestamps_stay_ordered_across_updates() {
    let mut store = TodoStore::new();
    let t = must_create(&mut store, "clockwork", "");
    assert!(t.created_at <= t.updated_at);
    let mut last = t.updated_at;
    for flag in [true, false, true] {
        let body = UpdateTodoSchema { title: None, content: None, completed: Some(flag) };
        match store.update(&t.id, &body) {
            Ok(u) => {
                assert_eq!(u.created_at, t.created_at);
                assert!(u.updated_at >= last);
                assert!(u.created_at <= u.updated_at);
                last = u.updated_at;
            },
            Err(_) => panic!("the record exists"),
        }
    }
}

#[test]
fn end_to_end_scenario() {
    let mut store = TodoStore::new();

    // Create("Buy milk", "2%"): a generated id, not completed
    let t = must_create(&mut store, "Buy milk", "2%");
    assert!(!t.completed);
    assert_eq!(t.id.len(), 36);

    // Create("Buy milk", "skim") again: Conflict, still exactly one record
    match store.create("Buy milk".to_string(), "skim".to_string()) {
        Ok(_) => panic!("a taken title must be refused"),
        Err(e) => assert_eq!(e, TodoError::Conflict),
    }
    assert_eq!(store.len(), 1);

    // Update(id, {completed: true}): flag set, texts unchanged, updated_at advanced
    let body = UpdateTodoSchema { title: None, content: None, completed: Some(true) };
    match store.update(&t.id, &body) {
        Ok(u) => {
            assert!(u.completed);
            assert_eq!(u.title, "Buy milk");
            assert_eq!(u.content, "2%");
            assert!(u.updated_at >= t.updated_at);
        },
        Err(_) => panic!("the record exists"),
    }

    // Delete(id) succeeds; Get(id) now fails
    assert!(store.delete(&t.id).is_ok());
    match store.get(&t.id) {
        Ok(_) => panic!("a deleted record must not be found"),
        Err(e) => assert_eq!(e, TodoError::NotFound),
    }
}
