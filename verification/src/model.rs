//! A reference model of the document store, and what the handlers do when
//! they are run against it. The model is a store that never fails and holds
//! at most one document per identifier.

use crate::handlers::{first_step, next_step, Operation, PendingView, StepView};
use crate::ident::{id_of_text, is_id_text};
use crate::response::{Failure, ResponseView};
use crate::store::{CallView, ReplyView};
use crate::user::UserView;
use vstd::prelude::*;

verus! {

/// The state of the model store: its documents by identifier, and what the
/// open cursor has yet to give.
pub struct Store {
    pub docs: Map<Seq<u8>, UserView>,
    pub cursor: Seq<UserView>,
}

impl Store {
    /// Finitely many documents, each stored under its own identifier.
    pub open spec fn wf(self) -> bool {
        &&& self.docs.dom().finite()
        &&& forall|id: Seq<u8>| #[trigger]
            self.docs.contains_key(id) ==> self.docs[id].id == Some(id)
    }

    /// Every document once, in an order of the store's choosing.
    pub open spec fn listing(self) -> Seq<UserView> {
        self.docs.dom().to_seq().map_values(|id: Seq<u8>| self.docs[id])
    }

    /// Whether writing `name` and `email` to the document `id` changes it.
    pub open spec fn changes(self, id: Seq<u8>, name: Option<Seq<char>>, email: Option<Seq<char>>) -> bool {
        self.docs.contains_key(id) && (self.docs[id].name != name || self.docs[id].email != email)
    }

    /// What the store answers to `call`.
    pub open spec fn reply(self, call: CallView) -> ReplyView {
        match call {
            CallView::InsertOne { record } => if record.id is Some && !self.docs.contains_key(
                record.id->0,
            ) {
                ReplyView::Inserted
            } else {
                ReplyView::Failed
            },
            CallView::FindOne { id } => ReplyView::Found(
                if self.docs.contains_key(id) {
                    Some(self.docs[id])
                } else {
                    None
                },
            ),
            CallView::FindAll => ReplyView::Opened,
            CallView::NextItem => ReplyView::Item(
                if self.cursor.len() > 0 {
                    Some(self.cursor[0])
                } else {
                    None
                },
            ),
            CallView::UpdateOne { id, name, email, upsert } => ReplyView::Updated {
                modified_count: if self.changes(id, name, email) {
                    1
                } else {
                    0
                },
            },
            CallView::DeleteOne { id } => ReplyView::Deleted {
                deleted_count: if self.docs.contains_key(id) {
                    1
                } else {
                    0
                },
            },
        }
    }

    /// The store once it has answered `call`.
    pub open spec fn after(self, call: CallView) -> Store {
        match call {
            CallView::InsertOne { record } => if record.id is Some && !self.docs.contains_key(
                record.id->0,
            ) {
                Store { docs: self.docs.insert(record.id->0, record), cursor: self.cursor }
            } else {
                self
            },
            CallView::FindOne { id } => self,
            CallView::FindAll => Store { docs: self.docs, cursor: self.listing() },
            CallView::NextItem => if self.cursor.len() > 0 {
                Store { docs: self.docs, cursor: self.cursor.drop_first() }
            } else {
                self
            },
            CallView::UpdateOne { id, name, email, upsert } => if self.docs.contains_key(id) || upsert {
                Store {
                    docs: self.docs.insert(id, UserView { id: Some(id), name, email }),
                    cursor: self.cursor,
                }
            } else {
                self
            },
            CallView::DeleteOne { id } => Store { docs: self.docs.remove(id), cursor: self.cursor },
        }
    }
}

/// Runs a handler against the model store from `step` on: every call is
/// answered by the store, every reply goes to the handler, until it responds.
/// `None` when more than `fuel` calls would be needed.
pub open spec fn run(step: StepView, store: Store, fuel: nat) -> Option<(ResponseView, Store)>
    decreases fuel,
{
    match step {
        StepView::Respond(response) => Some((response, store)),
        StepView::Call { call, pending } => if fuel == 0 {
            None
        } else {
            run(next_step(pending, store.reply(call)), store.after(call), (fuel - 1) as nat)
        },
    }
}

/// The response to a finished listing: not found when there is no record.
pub open spec fn listed(users: Seq<UserView>) -> ResponseView {
    if users.len() == 0 {
        ResponseView::Failed(Failure::NotFound)
    } else {
        ResponseView::Many(users)
    }
}

/// What each operation answers, and what it leaves in the store, when the
/// store is the model store.
pub open spec fn serve(operation: Operation, store: Store) -> (ResponseView, Store) {
    match operation {
        Operation::Create { id, payload } => if store.docs.contains_key(id) {
            (ResponseView::Failed(Failure::ServerError), store)
        } else {
            let record = UserView::created(id, payload);
            (ResponseView::One(record), Store { docs: store.docs.insert(id, record), ..store })
        },
        Operation::GetOne { path } => if !is_id_text(path) {
            (ResponseView::Failed(Failure::BadRequest), store)
        } else if !store.docs.contains_key(id_of_text(path)) {
            (ResponseView::Failed(Failure::NotFound), store)
        } else {
            (ResponseView::One(store.docs[id_of_text(path)]), store)
        },
        Operation::GetAll => (listed(store.listing()), Store { cursor: Seq::empty(), ..store }),
        Operation::Update { path, changes } => if !is_id_text(path) {
            (ResponseView::Failed(Failure::BadRequest), store)
        } else if !store.docs.contains_key(id_of_text(path)) {
            (ResponseView::Failed(Failure::NotFound), store)
        } else {
            let id = id_of_text(path);
            let merged = UserView::merged(id, changes, store.docs[id]);
            if merged == store.docs[id] {
                (ResponseView::Failed(Failure::ServerError), store)
            } else {
                (ResponseView::One(merged), Store { docs: store.docs.insert(id, merged), ..store })
            }
        },
        Operation::Delete { path } => if !is_id_text(path) {
            (ResponseView::Failed(Failure::BadRequest), store)
        } else if !store.docs.contains_key(id_of_text(path)) {
            (ResponseView::Failed(Failure::NotFound), store)
        } else {
            let id = id_of_text(path);
            (ResponseView::One(store.docs[id]), Store { docs: store.docs.remove(id), ..store })
        },
    }
}

/// Reading the cursor to its end collects what it held, in order, behind
/// what was collected before.
proof fn lemma_scan(users: Seq<UserView>, store: Store, fuel: nat)
    requires
        fuel > store.cursor.len(),
    ensures
        run(StepView::Call { call: CallView::NextItem, pending: PendingView::Scan { users } }, store, fuel)
            == Some((listed(users + store.cursor), Store { cursor: Seq::empty(), ..store })),
    decreases store.cursor.len(),
{
    if store.cursor.len() == 0 {
        assert(store.cursor =~= Seq::empty());
        reveal_with_fuel(run, 2);
    } else {
        let rest = Store { docs: store.docs, cursor: store.cursor.drop_first() };
        lemma_scan(users.push(store.cursor[0]), rest, (fuel - 1) as nat);
        assert(users.push(store.cursor[0]) + rest.cursor =~= users + store.cursor);
    }
}

/// Run against the model store, every operation answers what `serve` says
/// and leaves the store as `serve` says, in at most two calls more than the
/// store has documents.
pub proof fn lemma_run_serves(operation: Operation, store: Store, fuel: nat)
    requires
        store.wf(),
        fuel >= store.docs.dom().len() + 2,
    ensures
        run(first_step(operation), store, fuel) == Some(serve(operation, store)),
{
    reveal_with_fuel(run, 3);
    match operation {
        Operation::GetAll => {
            let opened = Store { docs: store.docs, cursor: store.listing() };
            lemma_listing(store);
            lemma_scan(Seq::empty(), opened, (fuel - 1) as nat);
        },
        Operation::Update { path, changes } => {
            let id = id_of_text(path);
            if is_id_text(path) && store.docs.contains_key(id) {
                let merged = UserView::merged(id, changes, store.docs[id]);
                if merged == store.docs[id] {
                    assert(store.docs.insert(id, merged) =~= store.docs);
                }
            }
        },
        _ => {},
    }
}

/// Every persisted record keeps its own, unshared identifier: whatever the
/// operation, the store that it leaves is well formed again.
pub proof fn lemma_serve_keeps_wf(operation: Operation, store: Store)
    requires
        store.wf(),
    ensures
        serve(operation, store).1.wf(),
{
}

/// The listing holds every document exactly once: it is as long as the store
/// has documents, each entry is the document stored under the entry's
/// identifier, no two entries share an identifier, and no document is missing.
pub proof fn lemma_listing(store: Store)
    requires
        store.wf(),
    ensures
        store.listing().len() == store.docs.dom().len(),
        forall|i: int|
            0 <= i < store.listing().len() ==> {
                let entry = #[trigger] store.listing()[i];
                entry.id is Some && store.docs.contains_key(entry.id->0) && store.docs[entry.id->0]
                    == entry
            },
        forall|i: int, j: int|
            0 <= i < j < store.listing().len() ==> #[trigger] store.listing()[i].id
                != #[trigger] store.listing()[j].id,
        forall|id: Seq<u8>| #[trigger]
            store.docs.contains_key(id) ==> store.listing().contains(store.docs[id]),
{
    let ids = store.docs.dom().to_seq();
    let listing = store.listing();
    lemma_to_seq(store.docs.dom());
    assert forall|id: Seq<u8>| #[trigger] store.docs.contains_key(id) implies listing.contains(
        store.docs[id],
    ) by {
        let at = choose|i: int| 0 <= i < ids.len() && ids[i] == id;
        assert(listing[at] == store.docs[id]);
    }
}

/// A finite set written as a sequence holds each member exactly once.
proof fn lemma_to_seq(ids: Set<Seq<u8>>)
    requires
        ids.finite(),
    ensures
        ids.to_seq().len() == ids.len(),
        forall|i: int| 0 <= i < ids.to_seq().len() ==> ids.contains(#[trigger] ids.to_seq()[i]),
        forall|i: int, j: int|
            0 <= i < j < ids.to_seq().len() ==> #[trigger] ids.to_seq()[i] != #[trigger] ids.to_seq()[j],
        forall|id: Seq<u8>|
            ids.contains(id) ==> exists|i: int| 0 <= i < ids.to_seq().len() && #[trigger] ids.to_seq()[i] == id,
    decreases ids.len(),
{
    if ids.len() != 0 {
        let first = ids.choose();
        let rest = ids.remove(first);
        lemma_to_seq(rest);
        let all = ids.to_seq();
        assert forall|id: Seq<u8>| ids.contains(id) implies exists|i: int|
            0 <= i < all.len() && #[trigger] all[i] == id by {
            if id == first {
                assert(all[0] == id);
            } else {
                let at = choose|i: int| 0 <= i < rest.to_seq().len() && #[trigger] rest.to_seq()[i] == id;
                assert(all[at + 1] == id);
            }
        }
    }
}

} // verus!
