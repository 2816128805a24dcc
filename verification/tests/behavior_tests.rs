use to_dont::models::UserDTO;
use to_dont::models::todo::TodoItemDTO;
use to_dont::repository::RepoError;
use to_dont::repository::Repository;
use to_dont::repository::sqlite::todo_repository::TodoRepository;
use to_dont::repository::sqlite::user_repository::UserRepository;

#[test]
fn test_select_missing_todo_not_found() -> Result<(), RepoError> {
    let todo_repo = TodoRepository::new(None)?;

    // the store is empty, so any identifier is absent
    let result = todo_repo.select_item_by_id(&1);
    assert_eq!(result.err(), Some(RepoError::NotFound));

    Ok(())
}

#[test]
fn test_update_and_delete_missing_todo_zero_rows() -> Result<(), RepoError> {
    let mut todo_repo = TodoRepository::new(None)?;

    let dto = TodoItemDTO { user_id: 1, task: "Anything".to_string() };

    // updating or deleting an absent identifier succeeds and touches 0 rows
    assert_eq!(todo_repo.update_item(&42, &dto)?, 0);
    assert_eq!(todo_repo.delete_item_by_id(&42)?, 0);
    assert_eq!(todo_repo.complete_todo_item(&42)?, 0);
    assert_eq!(todo_repo.uncomplete_todo_item(&42)?, 0);

    Ok(())
}

#[test]
fn test_delete_todo_twice_idempotent() -> Result<(), RepoError> {
    let mut todo_repo = TodoRepository::new(None)?;

    let dto = TodoItemDTO { user_id: 1, task: "Delete me".to_string() };
    let todo_id = todo_repo.save_new_item(&dto)?;

    // the first delete removes the one matching row, the second finds none
    assert_eq!(todo_repo.delete_item_by_id(&todo_id)?, 1);
    assert_eq!(todo_repo.delete_item_by_id(&todo_id)?, 0);

    Ok(())
}

#[test]
fn test_completion_timestamp_round_trip() -> Result<(), RepoError> {
    let mut todo_repo = TodoRepository::new(None)?;

    let dto = TodoItemDTO { user_id: 1, task: "Track my completion".to_string() };
    let todo_id = todo_repo.save_new_item(&dto)?;

    // a fresh item is incomplete, with no completion time and a creation time
    let item = todo_repo.select_item_by_id(&todo_id)?;
    assert_eq!(item.completed, false);
    assert!(item.completed_datetime.is_none());
    assert!(item.created_datetime.secs > 0);

    // completing raises the flag and stamps a time no earlier than creation
    assert_eq!(todo_repo.complete_todo_item(&todo_id)?, 1);
    let item = todo_repo.select_item_by_id(&todo_id)?;
    assert_eq!(item.completed, true);
    let completed_at = item.completed_datetime.expect("completion time should be set");
    assert!(completed_at.secs >= item.created_datetime.secs);

    // un-completing restores the completion sub-state exactly
    assert_eq!(todo_repo.uncomplete_todo_item(&todo_id)?, 1);
    let item = todo_repo.select_item_by_id(&todo_id)?;
    assert_eq!(item.completed, false);
    assert!(item.completed_datetime.is_none());

    Ok(())
}

#[test]
fn test_get_user_todos_empty() -> Result<(), RepoError> {
    let todo_repo = TodoRepository::new(None)?;

    // a user with no items gets an empty listing, not an error
    let todos = todo_repo.get_user_todos(&1)?;
    assert_eq!(todos.len(), 0);

    Ok(())
}

#[test]
fn test_get_user_todos_excludes_other_users() -> Result<(), RepoError> {
    let mut todo_repo = TodoRepository::new(None)?;

    let mine = TodoItemDTO { user_id: 1, task: "Mine".to_string() };
    let theirs = TodoItemDTO { user_id: 2, task: "Theirs".to_string() };
    todo_repo.save_new_item(&mine)?;
    todo_repo.save_new_item(&theirs)?;

    let todos = todo_repo.get_user_todos(&2)?;
    assert_eq!(todos.len(), 1);
    assert_eq!(todos[0].user_id, 2);
    assert_eq!(todos[0].task, "Theirs".to_string());

    Ok(())
}

#[test]
fn test_store_assigns_sequential_ids() -> Result<(), RepoError> {
    let mut todo_repo = TodoRepository::new(None)?;

    let first = TodoItemDTO { user_id: 1, task: "First".to_string() };
    let second = TodoItemDTO { user_id: 1, task: "Second".to_string() };

    // a fresh store assigns 1, then 2
    assert_eq!(todo_repo.save_new_item(&first)?, 1);
    assert_eq!(todo_repo.save_new_item(&second)?, 2);

    Ok(())
}

#[test]
fn test_update_todo_counts_one_row() -> Result<(), RepoError> {
    let mut todo_repo = TodoRepository::new(None)?;

    let dto = TodoItemDTO { user_id: 1, task: "Before".to_string() };
    let todo_id = todo_repo.save_new_item(&dto)?;

    let update = TodoItemDTO { user_id: 1, task: "After".to_string() };
    assert_eq!(todo_repo.update_item(&todo_id, &update)?, 1);

    Ok(())
}

#[test]
fn test_select_missing_user_not_found() -> Result<(), RepoError> {
    let user_repo = UserRepository::new(None)?;

    let result = user_repo.select_item_by_id(&1);
    assert_eq!(result.err(), Some(RepoError::NotFound));

    Ok(())
}

#[test]
fn test_update_and_delete_missing_user_zero_rows() -> Result<(), RepoError> {
    let mut user_repo = UserRepository::new(None)?;

    let dto = UserDTO {
        first_name: "Nobody".to_string(),
        last_name: "Here".to_string(),
        email: "nobody@fakemail.com".to_string(),
    };

    assert_eq!(user_repo.update_item(&42, &dto)?, 0);
    assert_eq!(user_repo.delete_item_by_id(&42)?, 0);

    Ok(())
}

#[test]
fn test_delete_user_twice_idempotent() -> Result<(), RepoError> {
    let mut user_repo = UserRepository::new(None)?;

    let dto = UserDTO {
        first_name: "Gone".to_string(),
        last_name: "Soon".to_string(),
        email: "gone@fakemail.com".to_string(),
    };
    let user_id = user_repo.save_new_item(&dto)?;

    assert_eq!(user_repo.delete_item_by_id(&user_id)?, 1);
    assert_eq!(user_repo.delete_item_by_id(&user_id)?, 0);

    Ok(())
}

#[test]
fn test_update_user_counts_one_row() -> Result<(), RepoError> {
    let mut user_repo = UserRepository::new(None)?;

    let dto = UserDTO {
        first_name: "Old".to_string(),
        last_name: "Name".to_string(),
        email: "old@fakemail.com".to_string(),
    };
    let user_id = user_repo.save_new_item(&dto)?;

    let update = UserDTO {
        first_name: "New".to_string(),
        last_name: "Name".to_string(),
        email: "new@fakemail.com".to_string(),
    };
    assert_eq!(user_repo.update_item(&user_id, &update)?, 1);

    Ok(())
}

#[test]
fn test_unreachable_location_is_connection_error() {
    // the parent directory does not exist, so the store cannot be opened
    match TodoRepository::new(Some("/nonexistent-directory-for-todos/store.db3")) {
        Err(RepoError::Connection) => {},
        _ => panic!("expected a connection error"),
    }

    match UserRepository::new(Some("/nonexistent-directory-for-users/store.db3")) {
        Err(RepoError::Connection) => {},
        _ => panic!("expected a connection error"),
    }
}
