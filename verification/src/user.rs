//! The user record and the two ways a record comes to be: made new from a
//! creation payload, or merged from stored values and an update payload.

use crate::ident::UserId;
use vstd::prelude::*;

verus! {

/// A user record, or a request payload for one. Every attribute may be absent.
#[derive(Debug, PartialEq, Eq)]
pub struct User {
    pub id: Option<UserId>,
    pub name: Option<String>,
    pub email: Option<String>,
}

/// What a `User` stands for: its identifier's bytes and its texts.
pub struct UserView {
    pub id: Option<Seq<u8>>,
    pub name: Option<Seq<char>>,
    pub email: Option<Seq<char>>,
}

/// The characters of an optional text.
pub open spec fn text_view(text: Option<String>) -> Option<Seq<char>> {
    match text {
        Some(s) => Some(s@),
        None => None,
    }
}

/// The bytes of an optional identifier.
pub open spec fn id_view(id: Option<UserId>) -> Option<Seq<u8>> {
    match id {
        Some(id) => Some(id@),
        None => None,
    }
}

impl View for User {
    type V = UserView;

    open spec fn view(&self) -> UserView {
        UserView { id: id_view(self.id), name: text_view(self.name), email: text_view(self.email) }
    }
}

/// The views of a list of records, in the same order.
pub open spec fn views(users: Seq<User>) -> Seq<UserView> {
    Seq::new(users.len(), |i: int| users[i]@)
}

/// One attribute of a record as it is written out, under its key.
#[derive(Debug, PartialEq, Eq)]
pub enum Field {
    Id(UserId),
    Name(String),
    Email(String),
}

/// What a `Field` stands for.
pub enum FieldView {
    Id(Seq<u8>),
    Name(Seq<char>),
    Email(Seq<char>),
}

impl FieldView {
    /// The key under which the attribute is written.
    pub open spec fn key(self) -> Seq<char> {
        match self {
            FieldView::Id(_) => "_id"@,
            FieldView::Name(_) => "name"@,
            FieldView::Email(_) => "email"@,
        }
    }
}

impl View for Field {
    type V = FieldView;

    open spec fn view(&self) -> FieldView {
        match *self {
            Field::Id(id) => FieldView::Id(id@),
            Field::Name(name) => FieldView::Name(name@),
            Field::Email(email) => FieldView::Email(email@),
        }
    }
}

impl Field {
    /// The key under which this attribute is written.
    pub fn key(&self) -> (key: &'static str)
        ensures
            key@ == self@.key(),
    {
        match self {
            Field::Id(_) => "_id",
            Field::Name(_) => "name",
            Field::Email(_) => "email",
        }
    }
}

/// The views of a list of fields, in the same order.
pub open spec fn field_views(fields: Seq<Field>) -> Seq<FieldView> {
    Seq::new(fields.len(), |i: int| fields[i]@)
}

impl UserView {
    /// The attributes that are written out for this record: the identifier,
    /// the name and the email, in this order, each only if it is present. An
    /// absent attribute is left out, not written as an empty value.
    pub open spec fn fields(self) -> Seq<FieldView> {
        let id = match self.id {
            Some(id) => seq![FieldView::Id(id)],
            None => seq![],
        };
        let name = match self.name {
            Some(name) => seq![FieldView::Name(name)],
            None => seq![],
        };
        let email = match self.email {
            Some(email) => seq![FieldView::Email(email)],
            None => seq![],
        };
        id + name + email
    }

    /// The record that creation stores for `payload`: the given identifier,
    /// whatever identifier the payload carried, and the payload's attributes.
    pub open spec fn created(id: Seq<u8>, payload: UserView) -> UserView {
        UserView { id: Some(id), name: payload.name, email: payload.email }
    }

    /// One attribute after an update: what the client sent if it sent
    /// something, else what was stored.
    pub open spec fn pick(sent: Option<Seq<char>>, stored: Option<Seq<char>>) -> Option<Seq<char>> {
        if sent is Some {
            sent
        } else {
            stored
        }
    }

    /// The record that an update of the record `id` leaves: each attribute
    /// merged on its own, and the identifier that of the request path.
    pub open spec fn merged(id: Seq<u8>, changes: UserView, existing: UserView) -> UserView {
        UserView {
            id: Some(id),
            name: Self::pick(changes.name, existing.name),
            email: Self::pick(changes.email, existing.email),
        }
    }
}

/// A copy of an optional text.
pub fn copy_text(text: &Option<String>) -> (copy: Option<String>)
    ensures
        copy == *text,
{
    match text {
        Some(s) => Some(s.clone()),
        None => None,
    }
}

impl Clone for User {
    fn clone(&self) -> (copy: Self)
        ensures
            copy == *self,
    {
        User { id: self.id, name: copy_text(&self.name), email: copy_text(&self.email) }
    }
}

impl User {
    /// The record to store for a creation payload, under a freshly generated
    /// identifier. An identifier in the payload is ignored.
    pub fn created(id: UserId, payload: &User) -> (record: User)
        ensures
            record@ == UserView::created(id@, payload@),
    {
        User { id: Some(id), name: copy_text(&payload.name), email: copy_text(&payload.email) }
    }

    /// The attributes to write out for this record, each under its key;
    /// absent attributes are left out.
    pub fn fields(&self) -> (fields: Vec<Field>)
        ensures
            field_views(fields@) == self@.fields(),
    {
        let mut fields: Vec<Field> = Vec::new();
        if let Some(id) = self.id {
            fields.push(Field::Id(id));
        }
        if let Some(name) = &self.name {
            fields.push(Field::Name(name.clone()));
        }
        if let Some(email) = &self.email {
            fields.push(Field::Email(email.clone()));
        }
        fields
    }

    /// The record to write back for an update payload: attributes the client
    /// sent replace the stored ones, attributes it left out are kept.
    pub fn merged(id: UserId, changes: &User, existing: User) -> (record: User)
        ensures
            record@ == UserView::merged(id@, changes@, existing@),
    {
        let name = match &changes.name {
            Some(sent) => Some(sent.clone()),
            None => existing.name,
        };
        let email = match &changes.email {
            Some(sent) => Some(sent.clone()),
            None => existing.email,
        };
        User { id: Some(id), name, email }
    }
}

} // verus!
