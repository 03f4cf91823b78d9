//! Laws of the handlers, each proved of the handlers as they run against the
//! model store. Where a law takes `fuel`, that is the number of calls the
//! handlers may make; two more than the store has documents always suffice.

use crate::handlers::{fail, first_step, next_step, update_call, Operation, PendingView, StepView};
use crate::ident::{hex_text, id_of_text, is_id_text, lemma_text_round_trip};
use crate::model::{lemma_listing, lemma_run_serves, lemma_serve_keeps_wf, run, serve, Store};
use crate::response::{Failure, ResponseView};
use crate::store::{CallView, ReplyView};
use crate::user::UserView;
use vstd::prelude::*;

verus! {

/// The identifier of a created record is the generated one. The payload's
/// own identifier plays no part: two payloads that differ in nothing else
/// start the same conversation.
pub proof fn law_created_identifier(id: Seq<u8>, payload: UserView, sent: Option<Seq<u8>>)
    ensures
        UserView::created(id, payload).id == Some(id),
        first_step(Operation::Create { id, payload }) == first_step(
            Operation::Create { id, payload: UserView { id: sent, ..payload } },
        ),
{
}

/// A creation answers with a record exactly when the store holds nothing
/// under the generated identifier. The record then carries that identifier
/// and the attributes that were sent, and it is in the store beside what was
/// there before.
pub proof fn law_create_adds_one(store: Store, id: Seq<u8>, payload: UserView, fuel: nat)
    requires
        store.wf(),
        fuel >= store.docs.dom().len() + 2,
    ensures
        ({
            let created = run(first_step(Operation::Create { id, payload }), store, fuel);
            let record = UserView { id: Some(id), name: payload.name, email: payload.email };
            &&& created matches Some((response, after))
            &&& response is One <==> !store.docs.contains_key(id)
            &&& response is One ==> response == ResponseView::One(record) && after.docs
                == store.docs.insert(id, record)
        }),
{
    lemma_run_serves(Operation::Create { id, payload }, store, fuel);
}

/// Two creations that both answer with a record, one after the other, answer
/// with different identifiers: the store takes no second record under an
/// identifier that it holds.
pub proof fn law_creations_differ(
    store: Store,
    first_id: Seq<u8>,
    first: UserView,
    second_id: Seq<u8>,
    second: UserView,
    fuel: nat,
)
    requires
        store.wf(),
        fuel >= store.docs.dom().len() + 3,
    ensures
        ({
            let earlier = run(first_step(Operation::Create { id: first_id, payload: first }), store, fuel);
            earlier matches Some((ResponseView::One(one), after)) ==> {
                let later = run(
                    first_step(Operation::Create { id: second_id, payload: second }),
                    after,
                    fuel,
                );
                later matches Some((ResponseView::One(other), _)) ==> one.id != other.id
            }
        }),
{
    let create = Operation::Create { id: first_id, payload: first };
    lemma_run_serves(create, store, fuel);
    lemma_serve_keeps_wf(create, store);
    let after = serve(create, store).1;
    lemma_run_serves(Operation::Create { id: second_id, payload: second }, after, fuel);
}

/// A path that is not a well-formed identifier is a bad request for every
/// operation on one record, and the store is never asked: the first step is
/// the response, so the run ends there whatever the store and the fuel.
pub proof fn law_bad_identifier(path: Seq<char>, changes: UserView, store: Store, fuel: nat)
    requires
        !is_id_text(path),
    ensures
        first_step(Operation::GetOne { path }) == fail(Failure::BadRequest),
        first_step(Operation::Update { path, changes }) == fail(Failure::BadRequest),
        first_step(Operation::Delete { path }) == fail(Failure::BadRequest),
        ({
            let refused = Some((ResponseView::Failed(Failure::BadRequest), store));
            &&& run(first_step(Operation::GetOne { path }), store, fuel) == refused
            &&& run(first_step(Operation::Update { path, changes }), store, fuel) == refused
            &&& run(first_step(Operation::Delete { path }), store, fuel) == refused
        }),
{
    reveal_with_fuel(run, 1);
}

/// Round trip: when a creation answers with a record, reading the record by
/// the written form of its identifier answers with the same record, which
/// has the name and the email that were sent.
pub proof fn law_create_then_get(store: Store, id: Seq<u8>, payload: UserView, fuel: nat)
    requires
        store.wf(),
        id.len() == 12,
        fuel >= store.docs.dom().len() + 3,
    ensures
        ({
            let created = run(first_step(Operation::Create { id, payload }), store, fuel);
            created matches Some((ResponseView::One(record), after)) ==> {
                &&& record.name == payload.name
                &&& record.email == payload.email
                &&& run(first_step(Operation::GetOne { path: hex_text(id) }), after, fuel) == Some(
                    (ResponseView::One(record), after),
                )
            }
        }),
{
    let create = Operation::Create { id, payload };
    lemma_run_serves(create, store, fuel);
    lemma_serve_keeps_wf(create, store);
    lemma_text_round_trip(id);
    let after = serve(create, store).1;
    lemma_run_serves(Operation::GetOne { path: hex_text(id) }, after, fuel);
}

/// Deleting twice: a deletion answers with the stored record exactly when
/// the path names a record of the store; the same deletion again then
/// answers not found and leaves the store as the first one left it.
pub proof fn law_delete_twice(store: Store, path: Seq<char>, fuel: nat)
    requires
        store.wf(),
        fuel >= store.docs.dom().len() + 2,
    ensures
        ({
            let id = id_of_text(path);
            let once = run(first_step(Operation::Delete { path }), store, fuel);
            &&& once matches Some((first, after))
            &&& first is One <==> is_id_text(path) && store.docs.contains_key(id)
            &&& first is One ==> {
                &&& first == ResponseView::One(store.docs[id])
                &&& after.docs == store.docs.remove(id)
                &&& run(first_step(Operation::Delete { path }), after, fuel) == Some(
                    (ResponseView::Failed(Failure::NotFound), after),
                )
            }
        }),
{
    let delete = Operation::Delete { path };
    lemma_run_serves(delete, store, fuel);
    lemma_serve_keeps_wf(delete, store);
    let after = serve(delete, store).1;
    if is_id_text(path) && store.docs.contains_key(id_of_text(path)) {
        lemma_run_serves(delete, after, fuel);
    }
}

/// A deletion that has found its record, and then finds it gone because
/// another request removed it in between, answers not found.
pub proof fn law_delete_lost_race(found_in: Store, deleted_in: Store, path: Seq<char>)
    requires
        is_id_text(path),
        found_in.docs.contains_key(id_of_text(path)),
        !deleted_in.docs.contains_key(id_of_text(path)),
    ensures
        ({
            let id = id_of_text(path);
            let looked_up = next_step(
                PendingView::Doomed { id },
                found_in.reply(CallView::FindOne { id }),
            );
            &&& first_step(Operation::Delete { path }) == StepView::Call {
                call: CallView::FindOne { id },
                pending: PendingView::Doomed { id },
            }
            &&& looked_up matches StepView::Call { call, pending }
            &&& call == CallView::DeleteOne { id }
            &&& next_step(pending, deleted_in.reply(call)) == fail(Failure::NotFound)
        }),
{
}

/// Partial update, step by step and whatever the store: an attribute that
/// the client left out is written back as it was stored, one that it sent is
/// written as sent, the identifier is that of the path, and the record that
/// is written is the record that the update answers with if the store
/// reports a change; if it reports none, the answer is a server error.
pub proof fn law_update_merges(id: Seq<u8>, changes: UserView, existing: UserView, modified_count: u64)
    ensures
        ({
            let found = next_step(PendingView::Existing { id, changes }, ReplyView::Found(Some(existing)));
            &&& found matches StepView::Call { call, pending: PendingView::Write { merged } }
            &&& call == update_call(id, merged)
            &&& merged.id == Some(id)
            &&& changes.name is None ==> merged.name == existing.name
            &&& changes.name is Some ==> merged.name == changes.name
            &&& changes.email is None ==> merged.email == existing.email
            &&& changes.email is Some ==> merged.email == changes.email
            &&& next_step(PendingView::Write { merged }, ReplyView::Updated { modified_count }) == if modified_count
                > 0 {
                StepView::Respond(ResponseView::One(merged))
            } else {
                fail(Failure::ServerError)
            }
        }),
{
}

/// Partial update, against the model store: an update that carries only an
/// email answers with a record exactly when the email is new to the record.
/// The record then has the stored name and the new email, and is what the
/// store holds afterwards. Else the answer is a server error and the store
/// is as it was.
pub proof fn law_update_keeps_name(store: Store, path: Seq<char>, email: Seq<char>, fuel: nat)
    requires
        store.wf(),
        is_id_text(path),
        store.docs.contains_key(id_of_text(path)),
        fuel >= store.docs.dom().len() + 2,
    ensures
        ({
            let id = id_of_text(path);
            let changes = UserView { id: None, name: None, email: Some(email) };
            let updated = run(first_step(Operation::Update { path, changes }), store, fuel);
            &&& updated matches Some((response, after))
            &&& response is One <==> store.docs[id].email != Some(email)
            &&& response matches ResponseView::One(user) ==> {
                &&& user.id == Some(id)
                &&& user.name == store.docs[id].name
                &&& user.email == Some(email)
                &&& after.docs == store.docs.insert(id, user)
            }
            &&& !(response is One) ==> response == ResponseView::Failed(Failure::ServerError) && after
                == store
        }),
{
    let changes = UserView { id: None, name: None, email: Some(email) };
    lemma_run_serves(Operation::Update { path, changes }, store, fuel);
}

/// Reading all records answers not found exactly when the store holds none;
/// otherwise it answers with the store's listing, which holds every record
/// exactly once. The store's documents are left as they were.
pub proof fn law_get_all(store: Store, fuel: nat)
    requires
        store.wf(),
        fuel >= store.docs.dom().len() + 2,
    ensures
        ({
            let read = run(first_step(Operation::GetAll), store, fuel);
            &&& read matches Some((response, after))
            &&& after.docs == store.docs
            &&& response == if store.docs.dom().len() == 0 {
                ResponseView::Failed(Failure::NotFound)
            } else {
                ResponseView::Many(store.listing())
            }
        }),
        store.listing().len() == store.docs.dom().len(),
        forall|id: Seq<u8>| #[trigger]
            store.docs.contains_key(id) ==> store.listing().contains(store.docs[id]),
        forall|i: int|
            0 <= i < store.listing().len() ==> {
                let entry = #[trigger] store.listing()[i];
                entry.id is Some && store.docs.contains_key(entry.id->0) && store.docs[entry.id->0]
                    == entry
            },
        forall|i: int, j: int|
            0 <= i < j < store.listing().len() ==> #[trigger] store.listing()[i].id
                != #[trigger] store.listing()[j].id,
{
    lemma_run_serves(Operation::GetAll, store, fuel);
    lemma_listing(store);
}

} // verus!
