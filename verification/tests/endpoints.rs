//! The endpoints run against a small table kept in memory, which stands in
//! for the store and does what a statement asks.

use user_service::handlers::{
    create_user, create_user_reply, delete_user, delete_user_reply, read_user, read_user_reply,
    read_users, read_users_reply, update_user, update_user_refetch, update_user_reply, Next,
};
use user_service::model::{NewUser, UpdateUser, User};
use user_service::response::{Body, Response, Status};
use user_service::statement::{Acquire, QueryError, Statement};

struct Store {
    rows: Vec<User>,
    next_id: i32,
    statements: Vec<Statement>,
}

impl Store {
    fn new() -> Store {
        Store { rows: Vec::new(), next_id: 1, statements: Vec::new() }
    }

    fn row(&mut self, statement: Statement) -> Result<User, QueryError> {
        self.statements.push(statement.clone());
        match statement {
            Statement::Insert { new_user } => {
                let user = User { id: self.next_id, name: new_user.name, email: new_user.email };
                self.next_id += 1;
                self.rows.push(user.clone());
                Ok(user)
            }
            Statement::SelectById { id } => {
                self.rows.iter().find(|u| u.id == id).cloned().ok_or(QueryError::NotFound)
            }
            other => panic!("no row comes back from {:?}", other),
        }
    }

    fn rows(&mut self, statement: Statement) -> Result<Vec<User>, QueryError> {
        self.statements.push(statement.clone());
        match statement {
            Statement::SelectAll => Ok(self.rows.clone()),
            other => panic!("no rows come back from {:?}", other),
        }
    }

    fn count(&mut self, statement: Statement) -> Result<usize, QueryError> {
        self.statements.push(statement.clone());
        match statement {
            Statement::Update { id, changes } => {
                assert!(changes.name.is_some() || changes.email.is_some());
                let mut touched = 0;
                for user in self.rows.iter_mut().filter(|u| u.id == id) {
                    if let Some(name) = &changes.name {
                        user.name = name.clone();
                    }
                    if let Some(email) = &changes.email {
                        user.email = email.clone();
                    }
                    touched += 1;
                }
                Ok(touched)
            }
            Statement::Delete { id } => {
                let before = self.rows.len();
                self.rows.retain(|u| u.id != id);
                Ok(before - self.rows.len())
            }
            other => panic!("no count comes back from {:?}", other),
        }
    }
}

fn post(store: &mut Store, name: &str, email: &str) -> Response {
    let new_user = NewUser { name: name.to_string(), email: email.to_string() };
    match create_user(Acquire::Ready, new_user) {
        Next::Execute(statement) => create_user_reply(store.row(statement)),
        Next::Respond(response) => response,
    }
}

fn list(store: &mut Store) -> Response {
    match read_users(Acquire::Ready) {
        Next::Execute(statement) => read_users_reply(store.rows(statement)),
        Next::Respond(response) => response,
    }
}

fn get(store: &mut Store, id: i32) -> Response {
    match read_user(Acquire::Ready, id) {
        Next::Execute(statement) => read_user_reply(store.row(statement)),
        Next::Respond(response) => response,
    }
}

fn put(store: &mut Store, id: i32, name: Option<&str>, email: Option<&str>) -> Response {
    let update =
        UpdateUser { name: name.map(|s| s.to_string()), email: email.map(|s| s.to_string()) };
    let fetch = match update_user(Acquire::Ready, id, update) {
        Next::Execute(statement @ Statement::Update { .. }) => {
            match update_user_refetch(id, store.count(statement)) {
                Next::Execute(fetch) => fetch,
                Next::Respond(response) => return response,
            }
        }
        Next::Execute(fetch) => fetch,
        Next::Respond(response) => return response,
    };
    update_user_reply(store.row(fetch))
}

fn delete(store: &mut Store, id: i32) -> Response {
    match delete_user(Acquire::Ready, id) {
        Next::Execute(statement) => delete_user_reply(store.count(statement)),
        Next::Respond(response) => response,
    }
}

fn user(id: i32, name: &str, email: &str) -> User {
    User { id, name: name.to_string(), email: email.to_string() }
}

fn one(response: &Response) -> User {
    match &response.body {
        Body::One(user) => user.clone(),
        other => panic!("expected one user, got {:?}", other),
    }
}

fn server_error() -> Response {
    Response { status: Status::InternalServerError, body: Body::Empty }
}

#[test]
fn create_answers_201_and_echoes_the_input() {
    let mut store = Store::new();
    let response = post(&mut store, "Ada", "ada@example.com");
    assert_eq!(response.status, Status::Created);
    assert_eq!(response.status.code(), 201);
    assert_eq!(response.body, Body::One(user(1, "Ada", "ada@example.com")));
}

#[test]
fn create_hands_the_insert_to_the_store() {
    let next = create_user(
        Acquire::Ready,
        NewUser { name: "Ada".to_string(), email: "ada@example.com".to_string() },
    );
    assert_eq!(
        next,
        Next::Execute(Statement::Insert {
            new_user: NewUser { name: "Ada".to_string(), email: "ada@example.com".to_string() },
        })
    );
}

#[test]
fn create_keeps_empty_and_odd_text_as_sent() {
    let mut store = Store::new();
    let response = post(&mut store, "", "  not an address \u{e9}");
    assert_eq!(response.status, Status::Created);
    assert_eq!(response.body, Body::One(user(1, "", "  not an address \u{e9}")));
}

#[test]
fn each_create_gets_an_id_of_its_own() {
    let mut store = Store::new();
    let first = one(&post(&mut store, "Ada", "ada@example.com"));
    let second = one(&post(&mut store, "Ada", "ada@example.com"));
    assert_ne!(first.id, second.id);
    assert_eq!(first.name, second.name);
}

#[test]
fn read_after_create_answers_200_with_the_same_user() {
    let mut store = Store::new();
    let created = post(&mut store, "Grace", "grace@example.com");
    let id = one(&created).id;
    let read = get(&mut store, id);
    assert_eq!(read.status, Status::Success);
    assert_eq!(read.status.code(), 200);
    assert_eq!(read.body, created.body);
}

#[test]
fn read_of_an_unassigned_id_answers_404() {
    let mut store = Store::new();
    post(&mut store, "Grace", "grace@example.com");
    let read = get(&mut store, 2_000_000_000);
    assert_eq!(read, Response { status: Status::NotFound, body: Body::Empty });
    assert_eq!(read.status.code(), 404);
    assert_eq!(get(&mut store, -1).status, Status::NotFound);
}

#[test]
fn read_answers_404_for_a_missing_row_and_500_for_a_failed_fetch() {
    let not_found = read_user_reply(Err(QueryError::NotFound));
    let database = read_user_reply(Err(QueryError::Database));
    assert_eq!(not_found, Response { status: Status::NotFound, body: Body::Empty });
    assert_eq!(database, server_error());
    assert_eq!(database.status.code(), 500);
}

#[test]
fn update_of_the_name_leaves_the_email() {
    let mut store = Store::new();
    let id = one(&post(&mut store, "Ada", "ada@example.com")).id;
    let response = put(&mut store, id, Some("X"), None);
    assert_eq!(response.status, Status::Success);
    assert_eq!(response.body, Body::One(user(id, "X", "ada@example.com")));
    assert_eq!(get(&mut store, id).body, Body::One(user(id, "X", "ada@example.com")));
}

#[test]
fn update_of_the_email_leaves_the_name() {
    let mut store = Store::new();
    let id = one(&post(&mut store, "Ada", "ada@example.com")).id;
    let response = put(&mut store, id, None, Some("countess@example.com"));
    assert_eq!(response.status, Status::Success);
    assert_eq!(response.body, Body::One(user(id, "Ada", "countess@example.com")));
}

#[test]
fn update_of_both_fields_sets_both() {
    let mut store = Store::new();
    let id = one(&post(&mut store, "Ada", "ada@example.com")).id;
    let response = put(&mut store, id, Some("Lovelace"), Some("countess@example.com"));
    assert_eq!(response.body, Body::One(user(id, "Lovelace", "countess@example.com")));
}

#[test]
fn update_to_an_empty_name_is_not_an_absent_name() {
    let mut store = Store::new();
    let id = one(&post(&mut store, "Ada", "ada@example.com")).id;
    let response = put(&mut store, id, Some(""), None);
    assert_eq!(response.body, Body::One(user(id, "", "ada@example.com")));
}

#[test]
fn update_without_fields_answers_200_with_the_row_unchanged() {
    let mut store = Store::new();
    let id = one(&post(&mut store, "Ada", "ada@example.com")).id;
    let response = put(&mut store, id, None, None);
    assert_eq!(response.status, Status::Success);
    assert_eq!(response.body, Body::One(user(id, "Ada", "ada@example.com")));
    assert_eq!(store.rows, vec![user(id, "Ada", "ada@example.com")]);
}

#[test]
fn update_without_fields_runs_the_fetch_alone() {
    let next = update_user(Acquire::Ready, 7, UpdateUser { name: None, email: None });
    assert_eq!(next, Next::Execute(Statement::SelectById { id: 7 }));
    assert!(UpdateUser { name: None, email: None }.is_empty());
    assert!(!UpdateUser { name: Some(String::new()), email: None }.is_empty());
    assert!(!UpdateUser { name: None, email: Some("e".to_string()) }.is_empty());
}

#[test]
fn update_with_a_field_runs_the_update_and_then_the_fetch() {
    let update = UpdateUser { name: Some("X".to_string()), email: None };
    let next = update_user(Acquire::Ready, 7, update.clone());
    assert_eq!(next, Next::Execute(Statement::Update { id: 7, changes: update }));
    assert_eq!(
        update_user_refetch(7, Ok(1)),
        Next::Execute(Statement::SelectById { id: 7 })
    );
    assert_eq!(
        update_user_refetch(7, Ok(0)),
        Next::Execute(Statement::SelectById { id: 7 })
    );
}

#[test]
fn update_of_a_missing_row_answers_404() {
    let mut store = Store::new();
    post(&mut store, "Ada", "ada@example.com");
    let response = put(&mut store, 99, Some("X"), None);
    assert_eq!(response, Response { status: Status::NotFound, body: Body::Empty });
    assert_eq!(put(&mut store, 99, None, None).status, Status::NotFound);
    assert_eq!(store.rows, vec![user(1, "Ada", "ada@example.com")]);
}

#[test]
fn update_that_fails_answers_500_without_a_fetch() {
    assert_eq!(update_user_refetch(7, Err(QueryError::Database)), Next::Respond(server_error()));
    assert_eq!(update_user_refetch(7, Err(QueryError::NotFound)), Next::Respond(server_error()));
}

#[test]
fn update_answers_404_when_the_row_went_before_the_fetch() {
    let response = update_user_reply(Err(QueryError::NotFound));
    assert_eq!(response, Response { status: Status::NotFound, body: Body::Empty });
    let response = update_user_reply(Ok(user(3, "a", "b")));
    assert_eq!(response, Response { status: Status::Success, body: Body::One(user(3, "a", "b")) });
}

#[test]
fn update_answers_500_when_the_fetch_after_it_fails() {
    assert_eq!(update_user_reply(Err(QueryError::Database)), server_error());
}

#[test]
fn delete_answers_204_and_the_row_is_gone() {
    let mut store = Store::new();
    let id = one(&post(&mut store, "Ada", "ada@example.com")).id;
    let response = delete(&mut store, id);
    assert_eq!(response, Response { status: Status::NoContent, body: Body::Empty });
    assert_eq!(response.status.code(), 204);
    assert_eq!(get(&mut store, id).status, Status::NotFound);
}

#[test]
fn delete_of_a_missing_row_answers_204() {
    let mut store = Store::new();
    let response = delete(&mut store, 12345);
    assert_eq!(response, Response { status: Status::NoContent, body: Body::Empty });
    assert_eq!(get(&mut store, 12345).status, Status::NotFound);
}

#[test]
fn delete_twice_answers_204_both_times() {
    let mut store = Store::new();
    let id = one(&post(&mut store, "Ada", "ada@example.com")).id;
    assert_eq!(delete(&mut store, id).status, Status::NoContent);
    assert_eq!(delete(&mut store, id).status, Status::NoContent);
    assert!(store.rows.is_empty());
}

#[test]
fn delete_leaves_the_other_rows() {
    let mut store = Store::new();
    let first = one(&post(&mut store, "Ada", "ada@example.com"));
    let second = one(&post(&mut store, "Grace", "grace@example.com"));
    delete(&mut store, first.id);
    assert_eq!(get(&mut store, second.id).body, Body::One(second));
}

#[test]
fn delete_hands_the_id_to_the_store() {
    assert_eq!(delete_user(Acquire::Ready, -4), Next::Execute(Statement::Delete { id: -4 }));
    assert_eq!(read_user(Acquire::Ready, 9), Next::Execute(Statement::SelectById { id: 9 }));
    assert_eq!(read_users(Acquire::Ready), Next::Execute(Statement::SelectAll));
}

#[test]
fn list_of_an_empty_table_answers_200_with_an_empty_list() {
    let mut store = Store::new();
    let response = list(&mut store);
    assert_eq!(response, Response { status: Status::Success, body: Body::Many(Vec::new()) });
}

#[test]
fn list_after_three_creates_has_the_three_users() {
    let mut store = Store::new();
    let a = one(&post(&mut store, "Ada", "ada@example.com"));
    let b = one(&post(&mut store, "Grace", "grace@example.com"));
    let c = one(&post(&mut store, "Edsger", "edsger@example.com"));
    let response = list(&mut store);
    assert_eq!(response.status, Status::Success);
    match response.body {
        Body::Many(users) => {
            assert_eq!(users.len(), 3);
            for created in [a, b, c] {
                assert!(users.contains(&created));
            }
        }
        other => panic!("expected a list, got {:?}", other),
    }
}

#[test]
fn list_keeps_the_order_of_the_store() {
    let rows = vec![user(3, "c", "c@x"), user(1, "a", "a@x"), user(2, "b", "b@x")];
    let response = read_users_reply(Ok(rows.clone()));
    assert_eq!(response, Response { status: Status::Success, body: Body::Many(rows) });
}

#[test]
fn no_connection_answers_500_on_every_endpoint() {
    let new_user = NewUser { name: "Ada".to_string(), email: "ada@example.com".to_string() };
    let update = UpdateUser { name: Some("X".to_string()), email: None };
    let nothing = UpdateUser { name: None, email: None };
    assert_eq!(create_user(Acquire::Unavailable, new_user), Next::Respond(server_error()));
    assert_eq!(read_users(Acquire::Unavailable), Next::Respond(server_error()));
    assert_eq!(read_user(Acquire::Unavailable, 1), Next::Respond(server_error()));
    assert_eq!(update_user(Acquire::Unavailable, 1, update), Next::Respond(server_error()));
    assert_eq!(update_user(Acquire::Unavailable, 1, nothing), Next::Respond(server_error()));
    assert_eq!(delete_user(Acquire::Unavailable, 1), Next::Respond(server_error()));
    assert_eq!(server_error().status.code(), 500);
}

#[test]
fn a_failed_statement_answers_500_on_create_list_and_delete() {
    for error in [QueryError::Database, QueryError::NotFound] {
        assert_eq!(create_user_reply(Err(error)), server_error());
        assert_eq!(read_users_reply(Err(error)), server_error());
        assert_eq!(delete_user_reply(Err(error)), server_error());
    }
}

#[test]
fn the_store_sees_one_statement_per_step() {
    let mut store = Store::new();
    post(&mut store, "Ada", "ada@example.com");
    put(&mut store, 1, None, Some("a@b"));
    put(&mut store, 1, None, None);
    delete(&mut store, 1);
    let changes = UpdateUser { name: None, email: Some("a@b".to_string()) };
    assert_eq!(
        store.statements,
        vec![
            Statement::Insert {
                new_user: NewUser { name: "Ada".to_string(), email: "ada@example.com".to_string() },
            },
            Statement::Update { id: 1, changes },
            Statement::SelectById { id: 1 },
            Statement::SelectById { id: 1 },
            Statement::Delete { id: 1 },
        ]
    );
}

#[test]
fn ids_at_the_ends_of_the_range_are_passed_on() {
    assert_eq!(
        read_user(Acquire::Ready, i32::MAX),
        Next::Execute(Statement::SelectById { id: i32::MAX })
    );
    assert_eq!(
        delete_user(Acquire::Ready, i32::MIN),
        Next::Execute(Statement::Delete { id: i32::MIN })
    );
    let mut store = Store::new();
    assert_eq!(get(&mut store, i32::MAX).status, Status::NotFound);
    assert_eq!(put(&mut store, i32::MIN, Some("X"), None).status, Status::NotFound);
}

#[test]
fn list_after_a_delete_has_the_rows_that_are_left() {
    let mut store = Store::new();
    let a = one(&post(&mut store, "Ada", "ada@example.com"));
    let b = one(&post(&mut store, "Grace", "grace@example.com"));
    delete(&mut store, a.id);
    assert_eq!(list(&mut store).body, Body::Many(vec![b]));
    let c = one(&post(&mut store, "Edsger", "edsger@example.com"));
    assert_ne!(c.id, a.id);
}
