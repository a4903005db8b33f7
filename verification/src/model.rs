//! Authorization models as the service reports them.
//!
//! A model is a document that the service holds under an id. The client
//! carries its type definitions along without reading them.

use crate::error::{Errors, ErrorsView};
use crate::json::{
    array_member, array_of, json_parse, parse_json, text_member, text_of, value_json, values_json,
    Json,
};
use crate::transport::Payload;
use vstd::prelude::*;
use vstd::string::*;

verus! {

/// The answer to publishing a model: the id that the service gave it.
#[derive(Debug, Clone, PartialEq, Eq)]
pub struct WriteAuthorizationModelResponse {
    pub authorization_model_id: String,
}

impl View for WriteAuthorizationModelResponse {
    type V = Seq<char>;

    open spec fn view(&self) -> Seq<char> {
        self.authorization_model_id@
    }
}

impl Payload for WriteAuthorizationModelResponse {
    /// An object with the string member `authorization_model_id`.
    open spec fn of_json(doc: Json) -> Option<Seq<char>> {
        text_of(doc, "authorization_model_id"@)
    }

    fn from_json(doc: &serde_json::Value) -> (r: Option<WriteAuthorizationModelResponse>) {
        match text_member(doc, "authorization_model_id") {
            Some(authorization_model_id) => Some(
                WriteAuthorizationModelResponse { authorization_model_id },
            ),
            None => None,
        }
    }
}

/// One published model.
#[derive(Debug, Clone, PartialEq, Eq)]
pub struct AuthorizationModel {
    pub id: String,
    pub type_definitions: Vec<serde_json::Value>,
}

/// What an [`AuthorizationModel`] holds.
pub struct ModelView {
    pub id: Seq<char>,
    pub type_definitions: Seq<Json>,
}

impl View for AuthorizationModel {
    type V = ModelView;

    open spec fn view(&self) -> ModelView {
        ModelView { id: self.id@, type_definitions: values_json(self.type_definitions@) }
    }
}

impl Payload for AuthorizationModel {
    /// An object with the string member `id` and the array member
    /// `type_definitions`, whose elements may be any documents.
    open spec fn of_json(doc: Json) -> Option<ModelView> {
        match (text_of(doc, "id"@), array_of(doc, "type_definitions"@)) {
            (Some(id), Some(type_definitions)) => Some(ModelView { id, type_definitions }),
            _ => None,
        }
    }

    fn from_json(doc: &serde_json::Value) -> (r: Option<AuthorizationModel>) {
        let id = text_member(doc, "id");
        let items = array_member(doc, "type_definitions");
        match (id, items) {
            (Some(id), Some(items)) => {
                let mut type_definitions: Vec<serde_json::Value> = Vec::new();
                let mut i: usize = 0;
                while i < items.len()
                    invariant
                        i <= items.len(),
                        type_definitions.len() == i,
                        forall|k: int|
                            0 <= k < i ==> value_json(#[trigger] type_definitions[k])
                                == value_json(items[k]),
                    decreases items.len() - i,
                {
                    type_definitions.push(items[i].clone());
                    i += 1;
                }
                assert(values_json(type_definitions@) =~= values_json(items@));
                Some(AuthorizationModel { id, type_definitions })
            },
            _ => None,
        }
    }
}

/// One page of the models of a store, in the order in which the service
/// lists them, and the token that asks for the page after it.
#[derive(Debug, Clone, PartialEq, Eq)]
pub struct GetAuthorizationModelsResponse {
    pub authorization_models: Vec<AuthorizationModel>,
    pub continuation_token: String,
}

/// What a [`GetAuthorizationModelsResponse`] holds.
pub struct ModelsView {
    pub authorization_models: Seq<ModelView>,
    pub continuation_token: Seq<char>,
}

impl View for GetAuthorizationModelsResponse {
    type V = ModelsView;

    open spec fn view(&self) -> ModelsView {
        ModelsView {
            authorization_models: model_views(self.authorization_models@),
            continuation_token: self.continuation_token@,
        }
    }
}

/// Every document of `items` has the shape of a model.
pub open spec fn all_models(items: Seq<Json>) -> bool {
    forall|i: int| 0 <= i < items.len() ==> AuthorizationModel::of_json(#[trigger] items[i]) is Some
}

/// The models that the documents `items` stand for, in the same order; `None`
/// where one of them has not the shape of a model.
pub open spec fn models_of_json(items: Seq<Json>) -> Option<Seq<ModelView>> {
    if all_models(items) {
        Some(items.map_values(|item: Json| AuthorizationModel::of_json(item)->0))
    } else {
        None
    }
}

/// What each model of `models` holds, in order.
pub open spec fn model_views(models: Seq<AuthorizationModel>) -> Seq<ModelView> {
    models.map_values(|m: AuthorizationModel| m@)
}

/// Reads one model from each document of `items`.
pub fn read_models(items: &Vec<serde_json::Value>) -> (r: Option<Vec<AuthorizationModel>>)
    ensures
        match r {
            Some(models) => models_of_json(values_json(items@)) == Some(model_views(models@)),
            None => models_of_json(values_json(items@)) is None,
        },
{
    let mut models: Vec<AuthorizationModel> = Vec::new();
    let mut i: usize = 0;
    while i < items.len()
        invariant
            i <= items.len(),
            models.len() == i,
            forall|k: int|
                0 <= k < i ==> AuthorizationModel::of_json(value_json(items[k])) == Some(
                    (#[trigger] models[k])@,
                ),
        decreases items.len() - i,
    {
        match AuthorizationModel::from_json(&items[i]) {
            Some(model) => {
                models.push(model);
            },
            None => {
                assert(AuthorizationModel::of_json(values_json(items@)[i as int]) is None);
                return None;
            },
        }
        i += 1;
    }
    proof {
        let docs = values_json(items@);
        assert forall|k: int| 0 <= k < docs.len() implies AuthorizationModel::of_json(
            #[trigger] docs[k],
        ) is Some by {
            assert(AuthorizationModel::of_json(value_json(items[k])) == Some(models[k]@));
        }
        assert(model_views(models@) =~= docs.map_values(
            |item: Json| AuthorizationModel::of_json(item)->0,
        ));
    }
    Some(models)
}

impl Payload for GetAuthorizationModelsResponse {
    /// An object with the array member `authorization_models`, each element
    /// of which has the shape of a model, and the string member
    /// `continuation_token`. The models keep the order of the array.
    open spec fn of_json(doc: Json) -> Option<ModelsView> {
        match (array_of(doc, "authorization_models"@), text_of(doc, "continuation_token"@)) {
            (Some(items), Some(continuation_token)) => match models_of_json(items) {
                Some(authorization_models) => Some(
                    ModelsView { authorization_models, continuation_token },
                ),
                None => None,
            },
            _ => None,
        }
    }

    fn from_json(doc: &serde_json::Value) -> (r: Option<GetAuthorizationModelsResponse>) {
        let items = array_member(doc, "authorization_models");
        let token = text_member(doc, "continuation_token");
        match (items, token) {
            (Some(items), Some(continuation_token)) => match read_models(items) {
                Some(authorization_models) => Some(
                    GetAuthorizationModelsResponse { authorization_models, continuation_token },
                ),
                None => None,
            },
            _ => None,
        }
    }
}

/// The model document that the text `text` is, or `InvalidDocument` where
/// the text is not JSON.
pub open spec fn model_document_of(text: Seq<u8>) -> Result<Json, ErrorsView> {
    match json_parse(text) {
        Some(doc) => Ok(doc),
        None => Err(ErrorsView::InvalidDocument),
    }
}

/// Reads a model document from its JSON text, for a caller that has the
/// model as text. The document is not looked into.
pub fn model_from_text(text: &str) -> (r: Result<serde_json::Value, Errors>)
    ensures
        match r {
            Ok(doc) => model_document_of(text.spec_bytes()) == Ok::<Json, ErrorsView>(
                value_json(doc),
            ),
            Err(e) => model_document_of(text.spec_bytes()) == Err::<Json, ErrorsView>(e@),
        },
{
    match parse_json(text.as_bytes()) {
        Ok(doc) => Ok(doc),
        Err(_) => Err(Errors::InvalidDocument),
    }
}

} // verus!
