//! The five operations on user records. Each is a short conversation with the
//! store: a handler function starts it, `resume` takes every reply, and each
//! of them says either which call to make next or which response to send.

use crate::ident::{id_of_text, is_id_text, UserId};
use crate::response::{Failure, Response, ResponseView};
use crate::store::{CallView, ReplyView, StoreCall, StoreReply};
use crate::user::{copy_text, views, User, UserView};
use vstd::prelude::*;

verus! {

/// Where a handler stands while a call to the store is under way, with what
/// it needs to go on once the reply is in.
#[derive(Debug, PartialEq, Eq)]
pub enum Pending {
    /// Creating: `record` is being inserted.
    Insert { record: User },
    /// Reading one record: the lookup is under way.
    Fetch,
    /// Reading all records: the cursor is being opened.
    Open,
    /// Reading all records: `users` were read so far, the next one is asked for.
    Scan { users: Vec<User> },
    /// Updating: the stored record `id` is being looked up, `changes` wait.
    Existing { id: UserId, changes: User },
    /// Updating: `merged` is being written back.
    Write { merged: User },
    /// Deleting: the record `id` is being looked up.
    Doomed { id: UserId },
    /// Deleting: the delete is under way; `user` is what was stored.
    Removal { user: User },
}

/// What a `Pending` stands for.
pub enum PendingView {
    Insert { record: UserView },
    Fetch,
    Open,
    Scan { users: Seq<UserView> },
    Existing { id: Seq<u8>, changes: UserView },
    Write { merged: UserView },
    Doomed { id: Seq<u8> },
    Removal { user: UserView },
}

impl View for Pending {
    type V = PendingView;

    open spec fn view(&self) -> PendingView {
        match *self {
            Pending::Insert { record } => PendingView::Insert { record: record@ },
            Pending::Fetch => PendingView::Fetch,
            Pending::Open => PendingView::Open,
            Pending::Scan { users } => PendingView::Scan { users: views(users@) },
            Pending::Existing { id, changes } => PendingView::Existing { id: id@, changes: changes@ },
            Pending::Write { merged } => PendingView::Write { merged: merged@ },
            Pending::Doomed { id } => PendingView::Doomed { id: id@ },
            Pending::Removal { user } => PendingView::Removal { user: user@ },
        }
    }
}

/// What a handler decided: to ask the store for something and wait, or to
/// answer the client.
#[derive(Debug, PartialEq, Eq)]
pub enum Step {
    /// Make `call`, then hand its reply to `resume` together with `pending`.
    Call { call: StoreCall, pending: Pending },
    /// The request is served: send this response.
    Respond(Response),
}

/// What a `Step` stands for.
pub enum StepView {
    Call { call: CallView, pending: PendingView },
    Respond(ResponseView),
}

impl View for Step {
    type V = StepView;

    open spec fn view(&self) -> StepView {
        match *self {
            Step::Call { call, pending } => StepView::Call { call: call@, pending: pending@ },
            Step::Respond(response) => StepView::Respond(response@),
        }
    }
}

/// A step that answers the client with a failure.
pub open spec fn fail(failure: Failure) -> StepView {
    StepView::Respond(ResponseView::Failed(failure))
}

/// The call that writes `updated` back over the stored record `id`: it sets
/// both attributes, and never inserts.
pub open spec fn update_call(id: Seq<u8>, updated: UserView) -> CallView {
    CallView::UpdateOne { id, name: updated.name, email: updated.email, upsert: false }
}

/// A request, as the handlers see it. Creation comes with the identifier that
/// was generated for it.
pub enum Operation {
    Create { id: Seq<u8>, payload: UserView },
    GetOne { path: Seq<char> },
    GetAll,
    Update { path: Seq<char>, changes: UserView },
    Delete { path: Seq<char> },
}

/// The first step of each operation. An operation on one record whose path is
/// not a well-formed identifier is answered at once; every other operation
/// starts with a call.
pub open spec fn first_step(operation: Operation) -> StepView {
    match operation {
        Operation::Create { id, payload } => {
            let record = UserView::created(id, payload);
            StepView::Call { call: CallView::InsertOne { record }, pending: PendingView::Insert { record } }
        },
        Operation::GetOne { path } => if is_id_text(path) {
            StepView::Call { call: CallView::FindOne { id: id_of_text(path) }, pending: PendingView::Fetch }
        } else {
            fail(Failure::BadRequest)
        },
        Operation::GetAll => StepView::Call { call: CallView::FindAll, pending: PendingView::Open },
        Operation::Update { path, changes } => if is_id_text(path) {
            let id = id_of_text(path);
            StepView::Call { call: CallView::FindOne { id }, pending: PendingView::Existing { id, changes } }
        } else {
            fail(Failure::BadRequest)
        },
        Operation::Delete { path } => if is_id_text(path) {
            let id = id_of_text(path);
            StepView::Call { call: CallView::FindOne { id }, pending: PendingView::Doomed { id } }
        } else {
            fail(Failure::BadRequest)
        },
    }
}

/// The step that follows when `reply` comes in while `pending` waits. A
/// failure of the store, and any reply that does not answer the call that was
/// made, ends the request with a server error.
pub open spec fn next_step(pending: PendingView, reply: ReplyView) -> StepView {
    match pending {
        PendingView::Insert { record } => match reply {
            ReplyView::Inserted => StepView::Respond(ResponseView::One(record)),
            _ => fail(Failure::ServerError),
        },
        PendingView::Fetch => match reply {
            ReplyView::Found(Some(user)) => StepView::Respond(ResponseView::One(user)),
            ReplyView::Found(None) => fail(Failure::NotFound),
            _ => fail(Failure::ServerError),
        },
        PendingView::Open => match reply {
            ReplyView::Opened => StepView::Call {
                call: CallView::NextItem,
                pending: PendingView::Scan { users: Seq::empty() },
            },
            _ => fail(Failure::ServerError),
        },
        PendingView::Scan { users } => match reply {
            ReplyView::Item(Some(user)) => StepView::Call {
                call: CallView::NextItem,
                pending: PendingView::Scan { users: users.push(user) },
            },
            ReplyView::Item(None) => if users.len() == 0 {
                fail(Failure::NotFound)
            } else {
                StepView::Respond(ResponseView::Many(users))
            },
            _ => fail(Failure::ServerError),
        },
        PendingView::Existing { id, changes } => match reply {
            ReplyView::Found(Some(existing)) => {
                let merged = UserView::merged(id, changes, existing);
                StepView::Call { call: update_call(id, merged), pending: PendingView::Write { merged } }
            },
            ReplyView::Found(None) => fail(Failure::NotFound),
            _ => fail(Failure::ServerError),
        },
        PendingView::Write { merged } => match reply {
            ReplyView::Updated { modified_count } => if modified_count > 0 {
                StepView::Respond(ResponseView::One(merged))
            } else {
                fail(Failure::ServerError)
            },
            _ => fail(Failure::ServerError),
        },
        PendingView::Doomed { id } => match reply {
            ReplyView::Found(Some(user)) => StepView::Call {
                call: CallView::DeleteOne { id },
                pending: PendingView::Removal { user },
            },
            ReplyView::Found(None) => fail(Failure::NotFound),
            _ => fail(Failure::ServerError),
        },
        PendingView::Removal { user } => match reply {
            ReplyView::Deleted { deleted_count } => if deleted_count == 1 {
                StepView::Respond(ResponseView::One(user))
            } else {
                fail(Failure::NotFound)
            },
            _ => fail(Failure::ServerError),
        },
    }
}

/// Starts the creation of a record under the identifier `id`.
pub fn create_user_with_id(id: UserId, payload: &User) -> (step: Step)
    ensures
        step@ == first_step(Operation::Create { id: id@, payload: payload@ }),
{
    let record = User::created(id, payload);
    let kept = record.clone();
    Step::Call { call: StoreCall::InsertOne { record }, pending: Pending::Insert { record: kept } }
}

/// Starts the creation of a record: generates its identifier, builds the
/// record from the identifier and the payload's attributes, and asks for the
/// insert. The identifier is the generator's, never the payload's.
pub fn create_user(payload: &User) -> (step: Step)
    ensures
        step@ matches StepView::Call { call: CallView::InsertOne { record }, .. } && {
            &&& record.id matches Some(id)
            &&& id.len() == 12
            &&& step@ == first_step(Operation::Create { id, payload: payload@ })
        },
{
    create_user_with_id(UserId::generate(), payload)
}

/// Starts the reading of the record that `path` names.
pub fn get_user(path: &str) -> (step: Step)
    ensures
        step@ == first_step(Operation::GetOne { path: path@ }),
        !is_id_text(path@) ==> step@ == fail(Failure::BadRequest),
{
    match UserId::parse(path) {
        Ok(id) => Step::Call { call: StoreCall::FindOne { id }, pending: Pending::Fetch },
        Err(failure) => Step::Respond(Response::Failed(failure)),
    }
}

/// Starts the reading of every record.
pub fn get_all_user() -> (step: Step)
    ensures
        step@ == first_step(Operation::GetAll),
{
    Step::Call { call: StoreCall::FindAll, pending: Pending::Open }
}

/// Starts the update of the record that `path` names with the attributes
/// that `changes` carries.
pub fn update_user(path: &str, changes: User) -> (step: Step)
    ensures
        step@ == first_step(Operation::Update { path: path@, changes: changes@ }),
        !is_id_text(path@) ==> step@ == fail(Failure::BadRequest),
{
    match UserId::parse(path) {
        Ok(id) => Step::Call { call: StoreCall::FindOne { id }, pending: Pending::Existing { id, changes } },
        Err(failure) => Step::Respond(Response::Failed(failure)),
    }
}

/// The call that writes `updated` back over the stored record `id`.
pub fn update_user_in_db(id: UserId, updated: &User) -> (call: StoreCall)
    ensures
        call@ == update_call(id@, updated@),
{
    StoreCall::UpdateOne {
        id,
        name: copy_text(&updated.name),
        email: copy_text(&updated.email),
        upsert: false,
    }
}

/// Starts the deletion of the record that `path` names.
pub fn delete_user(path: &str) -> (step: Step)
    ensures
        step@ == first_step(Operation::Delete { path: path@ }),
        !is_id_text(path@) ==> step@ == fail(Failure::BadRequest),
{
    match UserId::parse(path) {
        Ok(id) => Step::Call { call: StoreCall::FindOne { id }, pending: Pending::Doomed { id } },
        Err(failure) => Step::Respond(Response::Failed(failure)),
    }
}

/// Takes the store's reply to the call that `pending` waits for and decides
/// what comes next.
pub fn resume(pending: Pending, reply: StoreReply) -> (step: Step)
    ensures
        step@ == next_step(pending@, reply@),
        reply@ is Failed ==> step@ == fail(Failure::ServerError),
{
    match pending {
        Pending::Insert { record } => match reply {
            StoreReply::Inserted => Step::Respond(Response::One(record)),
            _ => Step::Respond(Response::Failed(Failure::ServerError)),
        },
        Pending::Fetch => match reply {
            StoreReply::Found(Some(user)) => Step::Respond(Response::One(user)),
            StoreReply::Found(None) => Step::Respond(Response::Failed(Failure::NotFound)),
            _ => Step::Respond(Response::Failed(Failure::ServerError)),
        },
        Pending::Open => match reply {
            StoreReply::Opened => {
                let users: Vec<User> = Vec::new();
                assert(views(users@) =~= Seq::empty());
                Step::Call { call: StoreCall::NextItem, pending: Pending::Scan { users } }
            },
            _ => Step::Respond(Response::Failed(Failure::ServerError)),
        },
        Pending::Scan { users } => match reply {
            StoreReply::Item(Some(user)) => {
                let mut users = users;
                let ghost before = users@;
                users.push(user);
                assert(views(users@) =~= views(before).push(user@));
                Step::Call { call: StoreCall::NextItem, pending: Pending::Scan { users } }
            },
            StoreReply::Item(None) => if users.len() == 0 {
                Step::Respond(Response::Failed(Failure::NotFound))
            } else {
                Step::Respond(Response::Many(users))
            },
            _ => Step::Respond(Response::Failed(Failure::ServerError)),
        },
        Pending::Existing { id, changes } => match reply {
            StoreReply::Found(Some(existing)) => {
                let merged = User::merged(id, &changes, existing);
                let call = update_user_in_db(id, &merged);
                Step::Call { call, pending: Pending::Write { merged } }
            },
            StoreReply::Found(None) => Step::Respond(Response::Failed(Failure::NotFound)),
            _ => Step::Respond(Response::Failed(Failure::ServerError)),
        },
        Pending::Write { merged } => match reply {
            StoreReply::Updated { modified_count } => if modified_count > 0 {
                Step::Respond(Response::One(merged))
            } else {
                Step::Respond(Response::Failed(Failure::ServerError))
            },
            _ => Step::Respond(Response::Failed(Failure::ServerError)),
        },
        Pending::Doomed { id } => match reply {
            StoreReply::Found(Some(user)) => Step::Call {
                call: StoreCall::DeleteOne { id },
                pending: Pending::Removal { user },
            },
            StoreReply::Found(None) => Step::Respond(Response::Failed(Failure::NotFound)),
            _ => Step::Respond(Response::Failed(Failure::ServerError)),
        },
        Pending::Removal { user } => match reply {
            StoreReply::Deleted { deleted_count } => if deleted_count == 1 {
                Step::Respond(Response::One(user))
            } else {
                Step::Respond(Response::Failed(Failure::NotFound))
            },
            _ => Step::Respond(Response::Failed(Failure::ServerError)),
        },
    }
}

} // verus!
