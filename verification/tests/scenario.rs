use user_service::handlers::{create_user, delete_user, get_all_user, get_user, resume, update_user, Step};
use user_service::ident::UserId;
use user_service::response::{Failure, Response};
use user_service::store::{StoreCall, StoreReply};
use user_service::user::User;

/// A store kept in memory: documents in insertion order, one per identifier.
struct Memory {
    docs: Vec<User>,
    cursor: Vec<User>,
    calls: usize,
}

impl Memory {
    fn new() -> Memory {
        Memory { docs: Vec::new(), cursor: Vec::new(), calls: 0 }
    }

    fn position(&self, id: UserId) -> Option<usize> {
        self.docs.iter().position(|doc| doc.id == Some(id))
    }

    fn answer(&mut self, call: StoreCall) -> StoreReply {
        self.calls += 1;
        match call {
            StoreCall::InsertOne { record } => match record.id {
                Some(id) if self.position(id).is_none() => {
                    self.docs.push(record);
                    StoreReply::Inserted
                }
                _ => StoreReply::Failed,
            },
            StoreCall::FindOne { id } => StoreReply::Found(self.position(id).map(|at| self.docs[at].clone())),
            StoreCall::FindAll => {
                self.cursor = self.docs.clone();
                StoreReply::Opened
            }
            StoreCall::NextItem => {
                if self.cursor.is_empty() {
                    StoreReply::Item(None)
                } else {
                    StoreReply::Item(Some(self.cursor.remove(0)))
                }
            }
            StoreCall::UpdateOne { id, name, email, upsert } => match self.position(id) {
                Some(at) => {
                    let changed = self.docs[at].name != name || self.docs[at].email != email;
                    self.docs[at].name = name;
                    self.docs[at].email = email;
                    StoreReply::Updated { modified_count: if changed { 1 } else { 0 } }
                }
                None => {
                    if upsert {
                        self.docs.push(User { id: Some(id), name, email });
                    }
                    StoreReply::Updated { modified_count: 0 }
                }
            },
            StoreCall::DeleteOne { id } => match self.position(id) {
                Some(at) => {
                    self.docs.remove(at);
                    StoreReply::Deleted { deleted_count: 1 }
                }
                None => StoreReply::Deleted { deleted_count: 0 },
            },
        }
    }

    fn serve(&mut self, first: Step) -> Response {
        let mut step = first;
        loop {
            match step {
                Step::Respond(response) => return response,
                Step::Call { call, pending } => {
                    let reply = self.answer(call);
                    step = resume(pending, reply);
                }
            }
        }
    }
}

fn payload(name: Option<&str>, email: Option<&str>) -> User {
    User { id: None, name: name.map(|s| s.to_string()), email: email.map(|s| s.to_string()) }
}

fn one(response: Response) -> User {
    match response {
        Response::One(user) => user,
        other => panic!("unexpected response {:?}", other),
    }
}

#[test]
fn a_record_is_created_read_updated_deleted_and_gone() {
    let mut store = Memory::new();

    let created = store.serve(create_user(&payload(Some("Ann"), None)));
    assert_eq!(created.status(), 200);
    let created = one(created);
    let id = created.id.expect("a created record has an identifier");
    assert_eq!(created.name, Some("Ann".to_string()));
    assert_eq!(created.email, None);
    let keys: Vec<&str> = created.fields().iter().map(|field| field.key()).collect();
    assert_eq!(keys, vec!["_id", "name"]);

    let path = id.to_hex();
    let read = store.serve(get_user(&path));
    assert_eq!(read.status(), 200);
    assert_eq!(read, Response::One(created.clone()));

    let updated = store.serve(update_user(&path, payload(None, Some("ann@x.com"))));
    assert_eq!(updated.status(), 200);
    let updated = one(updated);
    assert_eq!(
        updated,
        User { id: Some(id), name: Some("Ann".to_string()), email: Some("ann@x.com".to_string()) }
    );

    let deleted = store.serve(delete_user(&path));
    assert_eq!(deleted.status(), 200);
    assert_eq!(deleted, Response::One(updated));

    let gone = store.serve(get_user(&path));
    assert_eq!(gone.status(), 404);
    assert_eq!(gone, Response::Failed(Failure::NotFound));
}

#[test]
fn created_record_reads_back_as_sent() {
    let mut store = Memory::new();
    let sent = [
        payload(Some("Ann"), Some("ann@x.com")),
        payload(Some("Bob"), None),
        payload(None, Some("carol@x.com")),
        payload(None, None),
        payload(Some(""), Some("")),
    ];
    for payload in sent {
        let created = one(store.serve(create_user(&payload)));
        let read = one(store.serve(get_user(&created.id.unwrap().to_hex())));
        assert_eq!(read.name, payload.name);
        assert_eq!(read.email, payload.email);
        assert_eq!(read.id, created.id);
    }
    assert_eq!(store.docs.len(), 5);
}

#[test]
fn created_records_get_distinct_identifiers() {
    let mut store = Memory::new();
    let mut ids: Vec<UserId> = Vec::new();
    for _ in 0..20 {
        let created = one(store.serve(create_user(&payload(Some("Ann"), None))));
        let id = created.id.unwrap();
        assert!(!ids.contains(&id));
        ids.push(id);
    }
    assert_eq!(store.docs.len(), 20);
}

#[test]
fn client_sent_identifier_is_not_used() {
    let mut store = Memory::new();
    let wanted = UserId::from_bytes([1u8; 12]);
    let sent = User { id: Some(wanted), name: Some("Ann".to_string()), email: None };
    let created = one(store.serve(create_user(&sent)));
    assert!(created.id.is_some());
    assert_ne!(created.id, Some(wanted));
    assert_eq!(store.serve(get_user(&wanted.to_hex())), Response::Failed(Failure::NotFound));
}

#[test]
fn deleting_twice_succeeds_once_then_is_not_found() {
    let mut store = Memory::new();
    let created = one(store.serve(create_user(&payload(Some("Ann"), Some("ann@x.com")))));
    let path = created.id.unwrap().to_hex();
    let first = store.serve(delete_user(&path));
    assert_eq!(first.status(), 200);
    assert_eq!(first, Response::One(created));
    let second = store.serve(delete_user(&path));
    assert_eq!(second.status(), 404);
    assert_eq!(second, Response::Failed(Failure::NotFound));
    assert!(store.docs.is_empty());
}

#[test]
fn delete_lost_to_a_concurrent_delete_is_not_found() {
    let mut store = Memory::new();
    let created = one(store.serve(create_user(&payload(Some("Ann"), None))));
    let id = created.id.unwrap();
    let step = delete_user(&id.to_hex());
    let (call, pending) = match step {
        Step::Call { call, pending } => (call, pending),
        other => panic!("unexpected step {:?}", other),
    };
    let found = store.answer(call);
    let step = resume(pending, found);
    // another request removes the record between the lookup and the delete
    assert_eq!(store.answer(StoreCall::DeleteOne { id }), StoreReply::Deleted { deleted_count: 1 });
    assert_eq!(store.serve(step), Response::Failed(Failure::NotFound));
}

#[test]
fn partial_update_preserves_the_name() {
    let mut store = Memory::new();
    let created = one(store.serve(create_user(&payload(Some("Ann"), Some("old@x.com")))));
    let path = created.id.unwrap().to_hex();
    let updated = one(store.serve(update_user(&path, payload(None, Some("new@x.com")))));
    assert_eq!(updated.name, Some("Ann".to_string()));
    assert_eq!(updated.email, Some("new@x.com".to_string()));
    assert_eq!(updated.id, created.id);
    assert_eq!(store.serve(get_user(&path)), Response::One(updated));
}

#[test]
fn update_that_changes_nothing_is_a_server_error() {
    let mut store = Memory::new();
    let created = one(store.serve(create_user(&payload(Some("Ann"), Some("ann@x.com")))));
    let path = created.id.unwrap().to_hex();
    let same = store.serve(update_user(&path, payload(Some("Ann"), None)));
    assert_eq!(same.status(), 500);
    assert_eq!(same, Response::Failed(Failure::ServerError));
    let empty = store.serve(update_user(&path, payload(None, None)));
    assert_eq!(empty, Response::Failed(Failure::ServerError));
    assert_eq!(store.serve(get_user(&path)), Response::One(created));
}

#[test]
fn update_and_delete_of_an_unknown_record_are_not_found() {
    let mut store = Memory::new();
    store.serve(create_user(&payload(Some("Ann"), None)));
    let unknown = "0123456789abcdef01234567";
    assert_eq!(store.serve(get_user(unknown)), Response::Failed(Failure::NotFound));
    assert_eq!(
        store.serve(update_user(unknown, payload(Some("Bea"), None))),
        Response::Failed(Failure::NotFound)
    );
    assert_eq!(store.serve(delete_user(unknown)), Response::Failed(Failure::NotFound));
    assert_eq!(store.docs.len(), 1);
}

#[test]
fn empty_collection_is_not_found() {
    let mut store = Memory::new();
    let all = store.serve(get_all_user());
    assert_eq!(all.status(), 404);
    assert_eq!(all, Response::Failed(Failure::NotFound));
}

#[test]
fn collection_is_listed_whole() {
    let mut store = Memory::new();
    let ann = one(store.serve(create_user(&payload(Some("Ann"), None))));
    let bob = one(store.serve(create_user(&payload(Some("Bob"), Some("bob@x.com")))));
    let all = store.serve(get_all_user());
    assert_eq!(all.status(), 200);
    assert_eq!(all, Response::Many(vec![ann.clone(), bob]));
    store.serve(delete_user(&ann.id.unwrap().to_hex()));
    match store.serve(get_all_user()) {
        Response::Many(users) => assert_eq!(users.len(), 1),
        other => panic!("unexpected response {:?}", other),
    }
}

#[test]
fn collection_emptied_again_is_not_found() {
    let mut store = Memory::new();
    let ann = one(store.serve(create_user(&payload(Some("Ann"), None))));
    store.serve(delete_user(&ann.id.unwrap().to_hex()));
    assert_eq!(store.serve(get_all_user()), Response::Failed(Failure::NotFound));
}

#[test]
fn bad_identifier_never_reaches_the_store() {
    let mut store = Memory::new();
    store.serve(create_user(&payload(Some("Ann"), None)));
    let calls: usize = store.calls;
    for path in ["", "ann", "0123456789abcdef0123456", "0123456789abcdef012345678", "0123456789abcdef0123456x"] {
        assert_eq!(store.serve(get_user(path)).status(), 400);
        assert_eq!(store.serve(update_user(path, payload(Some("Bea"), None))).status(), 400);
        assert_eq!(store.serve(delete_user(path)).status(), 400);
    }
    assert_eq!(store.calls, calls);
}
