use todo_api::entity::{CreateTodo, Todo, UpdateTodo};
use todo_api::error::RepositoryError;
use todo_api::memory::{TodoDatas, TodoRepositoryForMemory};
use todo_api::repositories::TodoRepository;

fn shareable<T: Clone + Send + Sync + 'static>(_: &T) {}

fn create_through<R: TodoRepository>(repository: &R, text: &str) -> Todo {
    repository
        .create(CreateTodo::new(text.to_string()))
        .expect("failed create todo")
}

#[test]
fn todo_crud_scenario() {
    let text = "todo text".to_string();
    let id = 1;
    let expected = Todo::new(id, text.clone());

    // create
    let repository = TodoRepositoryForMemory::new();
    let todo = repository
        .create(CreateTodo { text })
        .expect("failed create todo");
    assert_eq!(expected, todo);

    // find
    let todo = repository.find(todo.id).unwrap();
    assert_eq!(expected, todo);

    // all
    let todo = repository.all().expect("failed get all todo");
    assert_eq!(vec![expected], todo);

    // update
    let text = "update todo text".to_string();
    let todo = repository
        .update(
            1,
            UpdateTodo {
                text: Some(text.clone()),
                completed: Some(true),
            },
        )
        .expect("failed update todo.");
    assert_eq!(
        Todo {
            id,
            text,
            completed: true,
        },
        todo
    );

    // delete
    let res = repository.delete(id);
    assert!(res.is_ok())
}

#[test]
fn buy_milk_from_creation_to_deletion() {
    let repository = TodoRepositoryForMemory::new();
    let milk = Todo {
        id: 1,
        text: "buy milk".to_string(),
        completed: false,
    };
    let done = Todo {
        id: 1,
        text: "buy milk".to_string(),
        completed: true,
    };
    assert_eq!(
        repository.create(CreateTodo::new("buy milk".to_string())),
        Ok(milk)
    );
    assert_eq!(
        repository.update(1, UpdateTodo::new(None, Some(true))),
        Ok(done.clone())
    );
    assert_eq!(repository.find(1), Ok(done));
    assert_eq!(repository.delete(1), Ok(()));
    assert_eq!(repository.find(1), Err(RepositoryError::NotFound(1)));
}

#[test]
fn clones_share_one_store() {
    let first = TodoRepositoryForMemory::new();
    let second = first.clone();
    let a = first.create(CreateTodo::new("one".to_string())).unwrap();
    let b = second.create(CreateTodo::new("two".to_string())).unwrap();
    assert_eq!(a.id, 1);
    assert_eq!(b.id, 2);
    assert_eq!(first.find(2).unwrap(), b);
    assert_eq!(second.find(1).unwrap(), a);
    assert_eq!(second.delete(1), Ok(()));
    assert_eq!(first.find(1), Err(RepositoryError::NotFound(1)));
}

#[test]
fn handle_can_cross_threads() {
    let repository = TodoRepositoryForMemory::new();
    shareable(&repository);
}

#[test]
fn generic_caller_sees_the_contract() {
    let repository = TodoRepositoryForMemory::new();
    let first = create_through(&repository, "first");
    let second = create_through(&repository, "second");
    assert_eq!(first, Todo::new(1, "first".to_string()));
    assert_eq!(second, Todo::new(2, "second".to_string()));
}

#[test]
fn missing_identifier_is_not_found_through_the_handle() {
    let repository = TodoRepositoryForMemory::new();
    assert_eq!(repository.find(7), Err(RepositoryError::NotFound(7)));
    assert_eq!(
        repository.update(7, UpdateTodo::new(Some("x".to_string()), None)),
        Err(RepositoryError::NotFound(7))
    );
    assert_eq!(repository.delete(7), Err(RepositoryError::NotFound(7)));
    assert_eq!(repository.all(), Ok(vec![]));
}

#[test]
fn second_deletion_through_the_handle_is_not_found() {
    let repository = TodoRepositoryForMemory::new();
    let todo = create_through(&repository, "once");
    assert_eq!(repository.delete(todo.id), Ok(()));
    assert_eq!(
        repository.delete(todo.id),
        Err(RepositoryError::NotFound(todo.id))
    );
}

#[test]
fn handle_reports_exhausted_identifiers() {
    let repository = TodoRepositoryForMemory::holding(TodoDatas::resuming(i32::MAX - 1));
    let last = create_through(&repository, "last");
    assert_eq!(last.id, i32::MAX);
    assert_eq!(
        repository.create(CreateTodo::new("one too many".to_string())),
        Err(RepositoryError::Unexpected(
            "todo identifiers are exhausted".to_string()
        ))
    );
    assert_eq!(repository.all(), Ok(vec![last]));
}

#[test]
fn many_creations_get_ascending_identifiers_and_are_all_listed() {
    let repository = TodoRepositoryForMemory::new();
    let writers = [repository.clone(), repository.clone(), repository.clone()];
    let mut ids = Vec::new();
    for round in 0..40 {
        for (w, writer) in writers.iter().enumerate() {
            let todo = create_through(writer, &format!("task {w}-{round}"));
            ids.push(todo.id);
        }
    }
    let expected: Vec<i32> = (1..=120).collect();
    assert_eq!(ids, expected);
    let mut listed: Vec<i32> = repository.all().unwrap().iter().map(|t| t.id).collect();
    listed.sort();
    assert_eq!(listed, expected);
}
