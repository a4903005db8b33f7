//! Stores: what is sent to create one, and what the service answers.

use crate::json::{json_text, text_member, text_of, value_json, Json, ObjectBuilder};
use crate::transport::Payload;
use vstd::prelude::*;

verus! {

/// The body of a call that creates a store.
#[derive(Debug, Clone, PartialEq, Eq)]
pub struct CreateDataStoreSchema {
    pub name: String,
}

impl View for CreateDataStoreSchema {
    type V = Seq<char>;

    open spec fn view(&self) -> Seq<char> {
        self.name@
    }
}

/// The JSON object that stands for the wish to create a store called `name`.
pub open spec fn create_store_json(name: Seq<char>) -> Json {
    Json::Object(map!["name"@ => Json::Text(name)])
}

impl CreateDataStoreSchema {
    /// The JSON object that stands for this body on the wire.
    pub fn to_json(&self) -> (r: serde_json::Value)
        ensures
            value_json(r) == create_store_json(self@),
    {
        ObjectBuilder::new().with("name", json_text(self.name.clone())).build()
    }
}

/// A store as the service describes it after creating it.
#[derive(Debug, Clone, PartialEq, Eq)]
pub struct CreateDataStoreResponse {
    pub id: String,
    pub name: String,
    pub created_at: String,
    pub updated_at: String,
}

/// What a [`CreateDataStoreResponse`] holds.
pub struct StoreView {
    pub id: Seq<char>,
    pub name: Seq<char>,
    pub created_at: Seq<char>,
    pub updated_at: Seq<char>,
}

impl View for CreateDataStoreResponse {
    type V = StoreView;

    open spec fn view(&self) -> StoreView {
        StoreView {
            id: self.id@,
            name: self.name@,
            created_at: self.created_at@,
            updated_at: self.updated_at@,
        }
    }
}

impl Payload for CreateDataStoreResponse {
    /// An object with the string members `id`, `name`, `created_at` and
    /// `updated_at`.
    open spec fn of_json(doc: Json) -> Option<StoreView> {
        match (
            text_of(doc, "id"@),
            text_of(doc, "name"@),
            text_of(doc, "created_at"@),
            text_of(doc, "updated_at"@),
        ) {
            (Some(id), Some(name), Some(created_at), Some(updated_at)) => Some(
                StoreView { id, name, created_at, updated_at },
            ),
            _ => None,
        }
    }

    fn from_json(doc: &serde_json::Value) -> (r: Option<CreateDataStoreResponse>) {
        let id = text_member(doc, "id");
        let name = text_member(doc, "name");
        let created_at = text_member(doc, "created_at");
        let updated_at = text_member(doc, "updated_at");
        match (id, name, created_at, updated_at) {
            (Some(id), Some(name), Some(created_at), Some(updated_at)) => Some(
                CreateDataStoreResponse { id, name, created_at, updated_at },
            ),
            _ => None,
        }
    }
}

} // verus!
