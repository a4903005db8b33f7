//! The authorization client.
//!
//! A client is bound, for its whole life, to a base URL and to at most one
//! store and one model of that store. Its operations check the binding they
//! need and then describe the request to send; nothing here performs the
//! exchange.

use crate::error::{result_view, Errors, ErrorsView};
use crate::json::{json_parse, value_json, Json};
use crate::model::{GetAuthorizationModelsResponse, ModelsView, WriteAuthorizationModelResponse};
use crate::relationship::{
    check_request_json, write_schema_json, ActionView, CheckRequest, CheckRequestView,
    CheckResponse, RelationshipAction, RelationshipTuple, TupleKeys, TupleView,
    WriteRelationshipTupleResponse, WriteRelationshipTupleSchema, WriteSchemaView,
};
use crate::store::{create_store_json, CreateDataStoreResponse, CreateDataStoreSchema};
use crate::transport::{
    auth_headers_of, content_headers_of, make_request, make_request_with_param, outcome_of,
    request_of, request_with_param_of, response_of, Exchange, HttpRequest, HttpRequestView,
    Method, Outcome,
};
use vstd::prelude::*;
use vstd::string::*;

verus! {

/// Where the service is, and the token to present to it.
#[derive(Debug, Clone, PartialEq, Eq)]
pub struct OpenFGAConfig {
    pub base_url: String,
    pub api_token: Option<String>,
}

/// What an [`OpenFGAConfig`] holds.
pub struct ConfigView {
    pub base_url: Seq<char>,
    pub api_token: Option<Seq<char>>,
}

impl View for OpenFGAConfig {
    type V = ConfigView;

    open spec fn view(&self) -> ConfigView {
        ConfigView {
            base_url: self.base_url@,
            api_token: match self.api_token {
                Some(token) => Some(token@),
                None => None,
            },
        }
    }
}

/// What a client is bound to. A model is of a store, so there is no binding
/// to a model alone.
#[derive(Debug, Clone, PartialEq, Eq)]
enum Binding {
    Unbound,
    Store(String),
    Model(String, String),
}

/// A session with the service, bound to at most one store and one model.
#[derive(Debug, Clone, PartialEq, Eq)]
pub struct OpenFGAClient {
    config: OpenFGAConfig,
    binding: Binding,
}

/// What an [`OpenFGAClient`] holds.
pub struct ClientView {
    pub config: ConfigView,
    pub store_id: Option<Seq<char>>,
    pub model_id: Option<Seq<char>>,
}

impl View for OpenFGAClient {
    type V = ClientView;

    closed spec fn view(&self) -> ClientView {
        ClientView {
            config: self.config@,
            store_id: match self.binding {
                Binding::Unbound => None,
                Binding::Store(store) => Some(store@),
                Binding::Model(store, _) => Some(store@),
            },
            model_id: match self.binding {
                Binding::Model(_, model) => Some(model@),
                _ => None,
            },
        }
    }
}

/// A text that may be absent, as a sequence of characters.
pub open spec fn text_view(text: Option<String>) -> Option<Seq<char>> {
    match text {
        Some(text) => Some(text@),
        None => None,
    }
}

/// The client for `config` bound to `store_id` and `model_id`. There is none
/// for a model without a store.
pub open spec fn client_of(
    config: ConfigView,
    store_id: Option<Seq<char>>,
    model_id: Option<Seq<char>>,
) -> Result<ClientView, ErrorsView> {
    if store_id is None && model_id is Some {
        Err(ErrorsView::MissingStoreId)
    } else {
        Ok(ClientView { config, store_id, model_id })
    }
}

/// No client is bound to a model without being bound to a store.
pub proof fn lemma_model_needs_store(client: OpenFGAClient)
    ensures
        client@.model_id is Some ==> client@.store_id is Some,
{
}

/// Makes a client for `config`, bound as `store_id` and `model_id` say. A
/// model without a store is refused with `MissingStoreId`.
pub fn create_openfga_client(
    config: OpenFGAConfig,
    store_id: Option<String>,
    model_id: Option<String>,
) -> (r: Result<OpenFGAClient, Errors>)
    ensures
        result_view(r) == client_of(config@, text_view(store_id), text_view(model_id)),
{
    match (store_id, model_id) {
        (None, None) => Ok(OpenFGAClient { config, binding: Binding::Unbound }),
        (Some(store), None) => Ok(OpenFGAClient { config, binding: Binding::Store(store) }),
        (Some(store), Some(model)) => Ok(
            OpenFGAClient { config, binding: Binding::Model(store, model) },
        ),
        (None, Some(_)) => Err(Errors::MissingStoreId),
    }
}

/// The path of what lies under the store `store`: `/stores/`, the store id as
/// it is, then `rest`.
pub open spec fn store_path(store: Seq<char>, rest: Seq<char>) -> Seq<char> {
    "/stores/"@ + store + rest
}

/// The request that creates a store called `name`. It needs no binding.
pub open spec fn create_store_request_of(client: ClientView, name: Seq<char>) -> Result<
    HttpRequestView,
    ErrorsView,
> {
    request_of(client.config, "/stores"@, Method::Post, Some(create_store_json(name)))
}

/// The request that publishes the model document `model` in the bound store.
pub open spec fn publish_model_request_of(client: ClientView, model: Json) -> Result<
    HttpRequestView,
    ErrorsView,
> {
    match client.store_id {
        Some(store) => request_of(
            client.config,
            store_path(store, "/authorization-models"@),
            Method::Post,
            Some(model),
        ),
        None => Err(ErrorsView::MissingStoreId),
    }
}

/// The request that lists the models of the bound store. It has no body.
pub open spec fn list_models_request_of(client: ClientView) -> Result<
    HttpRequestView,
    ErrorsView,
> {
    match client.store_id {
        Some(store) => request_of(
            client.config,
            store_path(store, "/authorization-models"@),
            Method::Get,
            None,
        ),
        None => Err(ErrorsView::MissingStoreId),
    }
}

/// The request that lists the models of the bound store from where the page
/// that came with `continuation_token` left off.
pub open spec fn next_models_request_of(
    client: ClientView,
    continuation_token: Seq<char>,
) -> Result<HttpRequestView, ErrorsView> {
    match client.store_id {
        Some(store) => request_with_param_of(
            client.config,
            store_path(store, "/authorization-models"@),
            "continuation_token"@,
            continuation_token,
            Method::Get,
            None,
        ),
        None => Err(ErrorsView::MissingStoreId),
    }
}

/// The request that applies `action` in the bound store under the bound
/// model. The store is asked for first: without one the failure is
/// `MissingStoreId` whether or not there is a model.
pub open spec fn write_request_of(client: ClientView, action: ActionView) -> Result<
    HttpRequestView,
    ErrorsView,
> {
    match client.store_id {
        None => Err(ErrorsView::MissingStoreId),
        Some(store) => match client.model_id {
            None => Err(ErrorsView::MissingModelId),
            Some(model) => request_of(
                client.config,
                store_path(store, "/write"@),
                Method::Post,
                Some(
                    write_schema_json(
                        WriteSchemaView {
                            authorization_model_id: model,
                            relationship_action: action,
                        },
                    ),
                ),
            ),
        },
    }
}

/// The request that asks whether `tuple` holds in the bound store under the
/// bound model. Without a store or without a model the failure is
/// `MissingStoreId`.
pub open spec fn check_request_of(client: ClientView, tuple: TupleView) -> Result<
    HttpRequestView,
    ErrorsView,
> {
    match (client.store_id, client.model_id) {
        (Some(store), Some(model)) => request_of(
            client.config,
            store_path(store, "/check"@),
            Method::Post,
            Some(
                check_request_json(
                    CheckRequestView { authorization_model_id: model, tuple_key: tuple },
                ),
            ),
        ),
        _ => Err(ErrorsView::MissingStoreId),
    }
}

/// The path of what lies under the store `store`.
fn path_in_store(store: &String, rest: &str) -> (r: String)
    ensures
        r@ == store_path(store@, rest@),
{
    "/stores/".to_owned().concat(store.as_str()).concat(rest)
}

impl OpenFGAClient {
    /// The connection parameters.
    pub fn config(&self) -> (r: &OpenFGAConfig)
        ensures
            r@ == self@.config,
    {
        &self.config
    }

    /// The store that the client is bound to.
    pub fn store_id(&self) -> (r: Option<&String>)
        ensures
            match r {
                Some(store) => self@.store_id == Some(store@),
                None => self@.store_id is None,
            },
    {
        match &self.binding {
            Binding::Unbound => None,
            Binding::Store(store) => Some(store),
            Binding::Model(store, _) => Some(store),
        }
    }

    /// The model that the client is bound to.
    pub fn model_id(&self) -> (r: Option<&String>)
        ensures
            match r {
                Some(model) => self@.model_id == Some(model@),
                None => self@.model_id is None,
            },
    {
        match &self.binding {
            Binding::Model(_, model) => Some(model),
            _ => None,
        }
    }

    /// Describes the exchange that creates the store `store`. The service
    /// answers with the store as it made it; this client stays as it is.
    pub fn create_data_store(&self, store: CreateDataStoreSchema) -> (r: Result<
        Exchange<CreateDataStoreResponse>,
        Errors,
    >)
        ensures
            result_view(r) == create_store_request_of(self@, store@),
    {
        make_request(&self.config, "/stores", Method::Post, Some(store.to_json()))
    }

    /// Describes the exchange that publishes the model document `model` in
    /// the bound store. The service answers with the id that it gave the
    /// model; this client stays bound as it is.
    pub fn write_authorization_model(&self, model: serde_json::Value) -> (r: Result<
        Exchange<WriteAuthorizationModelResponse>,
        Errors,
    >)
        ensures
            result_view(r) == publish_model_request_of(self@, value_json(model)),
    {
        match self.store_id() {
            Some(store) => {
                let path = path_in_store(store, "/authorization-models");
                make_request(&self.config, path.as_str(), Method::Post, Some(model))
            },
            None => Err(Errors::MissingStoreId),
        }
    }

    /// Describes the exchange that lists the models of the bound store. The
    /// service answers with one page of them.
    pub fn get_authorization_models(&self) -> (r: Result<
        Exchange<GetAuthorizationModelsResponse>,
        Errors,
    >)
        ensures
            result_view(r) == list_models_request_of(self@),
    {
        match self.store_id() {
            Some(store) => {
                let path = path_in_store(store, "/authorization-models");
                make_request(&self.config, path.as_str(), Method::Get, None)
            },
            None => Err(Errors::MissingStoreId),
        }
    }

    /// Describes the exchange that lists the models of the bound store from
    /// where an earlier page left off: `continuation_token` is the token that
    /// came with that page. The client follows no token by itself.
    pub fn get_authorization_models_after(&self, continuation_token: &str) -> (r: Result<
        Exchange<GetAuthorizationModelsResponse>,
        Errors,
    >)
        ensures
            result_view(r) == next_models_request_of(self@, continuation_token@),
    {
        match self.store_id() {
            Some(store) => {
                let path = path_in_store(store, "/authorization-models");
                make_request_with_param(
                    &self.config,
                    path.as_str(),
                    "continuation_token",
                    continuation_token,
                    Method::Get,
                    None,
                )
            },
            None => Err(Errors::MissingStoreId),
        }
    }

    /// Describes the exchange that applies `tuples`, a write or a delete, in
    /// the bound store under the bound model. The service answers with an
    /// empty payload.
    pub fn write_relationship_tuple(&self, tuples: RelationshipAction) -> (r: Result<
        Exchange<WriteRelationshipTupleResponse>,
        Errors,
    >)
        ensures
            result_view(r) == write_request_of(self@, tuples@),
    {
        match &self.binding {
            Binding::Unbound => Err(Errors::MissingStoreId),
            Binding::Store(_) => Err(Errors::MissingModelId),
            Binding::Model(store, model) => {
                let body = WriteRelationshipTupleSchema {
                    authorization_model_id: model.clone(),
                    relationship_action: tuples,
                };
                let path = path_in_store(store, "/write");
                make_request(&self.config, path.as_str(), Method::Post, Some(body.to_json()))
            },
        }
    }

    /// Describes the exchange that stores the tuples of `batch`.
    pub fn write_tuples(&self, batch: TupleKeys) -> (r: Result<
        Exchange<WriteRelationshipTupleResponse>,
        Errors,
    >)
        ensures
            result_view(r) == write_request_of(self@, ActionView::Writes(batch@)),
    {
        self.write_relationship_tuple(RelationshipAction::Writes(batch))
    }

    /// Describes the exchange that removes the tuples of `batch`.
    pub fn delete_tuples(&self, batch: TupleKeys) -> (r: Result<
        Exchange<WriteRelationshipTupleResponse>,
        Errors,
    >)
        ensures
            result_view(r) == write_request_of(self@, ActionView::Deletes(batch@)),
    {
        self.write_relationship_tuple(RelationshipAction::Deletes(batch))
    }

    /// Describes the exchange that asks the service whether `tuple` holds.
    /// The service answers with its decision; the client decides nothing
    /// itself.
    pub fn check(&self, tuple: RelationshipTuple) -> (r: Result<Exchange<CheckResponse>, Errors>)
        ensures
            result_view(r) == check_request_of(self@, tuple@),
    {
        match &self.binding {
            Binding::Model(store, model) => {
                let body = CheckRequest { authorization_model_id: model.clone(), tuple_key: tuple };
                let path = path_in_store(store, "/check");
                make_request(&self.config, path.as_str(), Method::Post, Some(body.to_json()))
            },
            _ => Err(Errors::MissingStoreId),
        }
    }
}

/// The headers that a request of the client is to have: those that the
/// client's token calls for, then those that announce the body, and no
/// others.
pub open spec fn carries_the_token(client: ClientView, request: HttpRequestView) -> bool {
    request.headers == auth_headers_of(client.config.api_token) + content_headers_of(request.body)
}

/// Whatever a client asks for, the request carries the token, if the client
/// has one, and no header beyond that but the one that announces a body.
pub proof fn lemma_every_request_carries_the_token(
    client: ClientView,
    name: Seq<char>,
    model: Json,
    continuation_token: Seq<char>,
    action: ActionView,
    tuple: TupleView,
)
    ensures
        create_store_request_of(client, name) matches Ok(request) ==> carries_the_token(
            client,
            request,
        ),
        publish_model_request_of(client, model) matches Ok(request) ==> carries_the_token(
            client,
            request,
        ),
        list_models_request_of(client) matches Ok(request) ==> carries_the_token(client, request),
        next_models_request_of(client, continuation_token) matches Ok(request)
            ==> carries_the_token(client, request),
        write_request_of(client, action) matches Ok(request) ==> carries_the_token(
            client,
            request,
        ),
        check_request_of(client, tuple) matches Ok(request) ==> carries_the_token(client, request),
{
}

/// A write and a delete on a client without a store both fail with
/// `MissingStoreId`, whatever the batch is and whether or not the client has
/// a model.
pub proof fn lemma_write_and_delete_need_a_store(client: ClientView, batch: Seq<TupleView>)
    requires
        client.store_id is None,
    ensures
        write_request_of(client, ActionView::Writes(batch)) == Err::<HttpRequestView, ErrorsView>(
            ErrorsView::MissingStoreId,
        ),
        write_request_of(client, ActionView::Deletes(batch)) == Err::<HttpRequestView, ErrorsView>(
            ErrorsView::MissingStoreId,
        ),
{
}

/// A check on a client without a store fails with `MissingStoreId` and
/// describes no request.
pub proof fn lemma_check_needs_a_store(client: ClientView, tuple: TupleView)
    requires
        client.store_id is None,
    ensures
        check_request_of(client, tuple) == Err::<HttpRequestView, ErrorsView>(
            ErrorsView::MissingStoreId,
        ),
{
}

/// The client that comes of binding `store_id` to the latest of the models
/// `listed`: the first of the list as the service gave it. There is none
/// where the list is empty.
pub open spec fn latest_model_client_of(
    config: ConfigView,
    store_id: Seq<char>,
    listed: ModelsView,
) -> Result<ClientView, ErrorsView> {
    if listed.authorization_models.len() == 0 {
        Err(ErrorsView::NoModelForStore)
    } else {
        Ok(
            ClientView {
                config,
                store_id: Some(store_id),
                model_id: Some(listed.authorization_models[0].id),
            },
        )
    }
}

/// Where the store holds no model, binding fails with `NoModelForStore`.
pub proof fn lemma_no_model_binds_nothing(
    config: ConfigView,
    store_id: Seq<char>,
    listed: ModelsView,
)
    requires
        listed.authorization_models.len() == 0,
    ensures
        latest_model_client_of(config, store_id, listed) == Err::<ClientView, ErrorsView>(
            ErrorsView::NoModelForStore,
        ),
{
}

/// Where the store holds models, the client is bound to the store and to the
/// first model of the list as it came: the list is not put in another order.
pub proof fn lemma_first_model_is_bound(
    config: ConfigView,
    store_id: Seq<char>,
    listed: ModelsView,
)
    requires
        listed.authorization_models.len() > 0,
    ensures
        latest_model_client_of(config, store_id, listed) == Ok::<ClientView, ErrorsView>(
            ClientView {
                config,
                store_id: Some(store_id),
                model_id: Some(listed.authorization_models.first().id),
            },
        ),
{
}

/// A client in the making: it has its store and waits for the answer to the
/// listing of that store's models.
#[derive(Debug, PartialEq, Eq)]
pub struct PendingClient {
    config: OpenFGAConfig,
    store_id: String,
    listing: Exchange<GetAuthorizationModelsResponse>,
}

/// What a [`PendingClient`] holds.
pub struct PendingView {
    pub config: ConfigView,
    pub store_id: Seq<char>,
    pub request: HttpRequestView,
}

impl View for PendingClient {
    type V = PendingView;

    closed spec fn view(&self) -> PendingView {
        PendingView { config: self.config@, store_id: self.store_id@, request: self.listing@ }
    }
}

/// The client in the making for `store_id` under `config`: its request lists
/// the models of the store.
pub open spec fn pending_client_of(config: ConfigView, store_id: Seq<char>) -> Result<
    PendingView,
    ErrorsView,
> {
    match request_of(config, store_path(store_id, "/authorization-models"@), Method::Get, None) {
        Ok(request) => Ok(PendingView { config, store_id, request }),
        Err(e) => Err(e),
    }
}

/// Begins to make a client for `store_id` that is bound to the store's
/// latest model. What comes back holds the request that lists the store's
/// models, and takes the answer to it.
pub fn create_openfga_client_full(config: OpenFGAConfig, store_id: String) -> (r: Result<
    PendingClient,
    Errors,
>)
    ensures
        result_view(r) == pending_client_of(config@, store_id@),
{
    let path = path_in_store(&store_id, "/authorization-models");
    let listing = make_request::<GetAuthorizationModelsResponse>(
        &config,
        path.as_str(),
        Method::Get,
        None,
    );
    match listing {
        Ok(listing) => Ok(PendingClient { config, store_id, listing }),
        Err(e) => Err(e),
    }
}

impl PendingClient {
    /// The request to send: it lists the models of the store.
    pub fn request(&self) -> (r: &HttpRequest)
        ensures
            r@ == self@.request,
    {
        self.listing.request()
    }

    /// Binds to the first model of `listed`, or fails with `NoModelForStore`
    /// where there is none. Either way no request follows.
    pub fn bind(self, listed: &GetAuthorizationModelsResponse) -> (r: Result<
        OpenFGAClient,
        Errors,
    >)
        ensures
            result_view(r) == latest_model_client_of(self@.config, self@.store_id, listed@),
    {
        if listed.authorization_models.len() == 0 {
            Err(Errors::NoModelForStore)
        } else {
            let model = listed.authorization_models[0].id.clone();
            Ok(OpenFGAClient { config: self.config, binding: Binding::Model(self.store_id, model) })
        }
    }

    /// Reads the answer to the listing and binds to the first model in it.
    /// A reply that is no list of models fails as it does for any exchange.
    pub fn complete(self, reply: &[u8]) -> (r: Result<OpenFGAClient, Errors>)
        ensures
            result_view(r) == match response_of::<GetAuthorizationModelsResponse>(
                json_parse(reply@),
            ) {
                Ok(listed) => latest_model_client_of(self@.config, self@.store_id, listed),
                Err(e) => Err(e),
            },
    {
        match self.listing.read(reply) {
            Ok(listed) => self.bind(&listed),
            Err(e) => Err(e),
        }
    }

    /// Finishes the client from what came of sending the listing: binds to
    /// the first model where the service answered with a list, and hands on
    /// what went wrong where it did not.
    pub fn conclude(self, outcome: &Outcome) -> (r: Result<OpenFGAClient, Errors>)
        ensures
            result_view(r) == match outcome_of::<GetAuthorizationModelsResponse>(outcome@) {
                Ok(listed) => latest_model_client_of(self@.config, self@.store_id, listed),
                Err(e) => Err(e),
            },
    {
        match self.listing.conclude(outcome) {
            Ok(listed) => self.bind(&listed),
            Err(e) => Err(e),
        }
    }
}

} // verus!
