//! The conversation with the document store: the calls a handler asks for and
//! the replies it is handed back.

use crate::ident::UserId;
use crate::user::{text_view, User, UserView};
use vstd::prelude::*;

verus! {

/// One operation on the collection of user records.
#[derive(Debug, PartialEq, Eq)]
pub enum StoreCall {
    /// Insert `record` as a new document.
    InsertOne { record: User },
    /// Look for the document whose identifier is `id`.
    FindOne { id: UserId },
    /// Open a cursor over every document of the collection.
    FindAll,
    /// Read the next document from the open cursor.
    NextItem,
    /// Set `name` and `email` on the document whose identifier is `id`. With
    /// `upsert` off, nothing is written when no document has that identifier.
    UpdateOne { id: UserId, name: Option<String>, email: Option<String>, upsert: bool },
    /// Delete the document whose identifier is `id`.
    DeleteOne { id: UserId },
}

/// What a `StoreCall` stands for.
pub enum CallView {
    InsertOne { record: UserView },
    FindOne { id: Seq<u8> },
    FindAll,
    NextItem,
    UpdateOne { id: Seq<u8>, name: Option<Seq<char>>, email: Option<Seq<char>>, upsert: bool },
    DeleteOne { id: Seq<u8> },
}

impl View for StoreCall {
    type V = CallView;

    open spec fn view(&self) -> CallView {
        match *self {
            StoreCall::InsertOne { record } => CallView::InsertOne { record: record@ },
            StoreCall::FindOne { id } => CallView::FindOne { id: id@ },
            StoreCall::FindAll => CallView::FindAll,
            StoreCall::NextItem => CallView::NextItem,
            StoreCall::UpdateOne { id, name, email, upsert } => CallView::UpdateOne {
                id: id@,
                name: text_view(name),
                email: text_view(email),
                upsert,
            },
            StoreCall::DeleteOne { id } => CallView::DeleteOne { id: id@ },
        }
    }
}

/// What the store answered to a call.
#[derive(Debug, PartialEq, Eq)]
pub enum StoreReply {
    /// The insert went through.
    Inserted,
    /// The lookup went through; it found this document, or none.
    Found(Option<User>),
    /// The cursor is open.
    Opened,
    /// The cursor gave this document, or is at its end.
    Item(Option<User>),
    /// The update went through and changed this many documents.
    Updated { modified_count: u64 },
    /// The delete went through and removed this many documents.
    Deleted { deleted_count: u64 },
    /// The store or its driver reported an error.
    Failed,
}

/// What a `StoreReply` stands for.
pub enum ReplyView {
    Inserted,
    Found(Option<UserView>),
    Opened,
    Item(Option<UserView>),
    Updated { modified_count: u64 },
    Deleted { deleted_count: u64 },
    Failed,
}

/// The view of an optional record.
pub open spec fn user_view(user: Option<User>) -> Option<UserView> {
    match user {
        Some(user) => Some(user@),
        None => None,
    }
}

impl View for StoreReply {
    type V = ReplyView;

    open spec fn view(&self) -> ReplyView {
        match *self {
            StoreReply::Inserted => ReplyView::Inserted,
            StoreReply::Found(user) => ReplyView::Found(user_view(user)),
            StoreReply::Opened => ReplyView::Opened,
            StoreReply::Item(user) => ReplyView::Item(user_view(user)),
            StoreReply::Updated { modified_count } => ReplyView::Updated { modified_count },
            StoreReply::Deleted { deleted_count } => ReplyView::Deleted { deleted_count },
            StoreReply::Failed => ReplyView::Failed,
        }
    }
}

} // verus!
