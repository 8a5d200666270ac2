//! The stored credential of one user, and what the credential store answers.

use vstd::prelude::*;

verus! {

/// One stored credential. The store keeps at most one per username, and the password as it
/// was given.
#[derive(Debug, Clone, PartialEq, Eq)]
pub struct Model {
    pub id: i32,
    pub username: String,
    pub password: String,
}

/// What a [`Model`] holds.
pub struct ModelView {
    pub id: i32,
    pub username: Seq<char>,
    pub password: Seq<char>,
}

impl View for Model {
    type V = ModelView;

    open spec fn view(&self) -> ModelView {
        ModelView { id: self.id, username: self.username@, password: self.password@ }
    }
}

/// What happened at the credential store since the last step of a request.
#[derive(Debug, Clone, PartialEq, Eq)]
pub enum StoreEvent {
    /// Nothing yet: the request has just arrived.
    Start,
    /// The lookup found this credential.
    Found(Model),
    /// The lookup found no credential under the username.
    Missing,
    /// The credential was created.
    Created,
    /// The store could not be reached, or refused the operation.
    Failed,
}

/// What a [`StoreEvent`] says.
pub enum StoreEventView {
    Start,
    Found(ModelView),
    Missing,
    Created,
    Failed,
}

impl View for StoreEvent {
    type V = StoreEventView;

    open spec fn view(&self) -> StoreEventView {
        match self {
            StoreEvent::Start => StoreEventView::Start,
            StoreEvent::Found(model) => StoreEventView::Found(model@),
            StoreEvent::Missing => StoreEventView::Missing,
            StoreEvent::Created => StoreEventView::Created,
            StoreEvent::Failed => StoreEventView::Failed,
        }
    }
}

} // verus!
