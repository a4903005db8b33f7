//! Relationship tuples and the request bodies that carry them.
//!
//! A tuple asserts that a user stands in a relation to an object. The three
//! identifiers are opaque to the client: it sends them as they are and leaves
//! it to the service to accept or refuse them.

use crate::error::{service_error_of, ErrorsView};
use crate::json::{
    bool_member, bool_of, json_array, json_text, member_of, text_member, text_of, value_json,
    values_json, Json, ObjectBuilder,
};
use crate::transport::{reply_of, Payload};
use vstd::prelude::*;
use vstd::string::*;

verus! {

/// One assertion: `user` stands in `relation` to `object`.
#[derive(Debug, Clone, PartialEq, Eq)]
pub struct RelationshipTuple {
    pub user: String,
    pub relation: String,
    pub object: String,
}

/// The triple that a [`RelationshipTuple`] holds.
pub struct TupleView {
    pub user: Seq<char>,
    pub relation: Seq<char>,
    pub object: Seq<char>,
}

impl View for RelationshipTuple {
    type V = TupleView;

    open spec fn view(&self) -> TupleView {
        TupleView { user: self.user@, relation: self.relation@, object: self.object@ }
    }
}

impl TupleView {
    /// None of the three identifiers is empty.
    pub open spec fn well_formed(self) -> bool {
        self.user.len() > 0 && self.relation.len() > 0 && self.object.len() > 0
    }
}

/// The JSON object that stands for the triple `t` on the wire.
pub open spec fn tuple_json(t: TupleView) -> Json {
    Json::Object(
        map![
            "user"@ => Json::Text(t.user),
            "relation"@ => Json::Text(t.relation),
            "object"@ => Json::Text(t.object),
        ],
    )
}

/// The triple that the JSON document `doc` stands for: an object with the
/// string members `user`, `relation` and `object`. Other members are ignored.
pub open spec fn tuple_of_json(doc: Json) -> Option<TupleView> {
    match (text_of(doc, "user"@), text_of(doc, "relation"@), text_of(doc, "object"@)) {
        (Some(user), Some(relation), Some(object)) => Some(TupleView { user, relation, object }),
        _ => None,
    }
}

/// The three member names of a tuple differ from each other.
pub proof fn lemma_tuple_keys_differ()
    ensures
        "user"@ != "relation"@,
        "user"@ != "object"@,
        "relation"@ != "object"@,
{
    reveal_strlit("user");
    reveal_strlit("relation");
    reveal_strlit("object");
    assert("user"@.len() == 4);
    assert("relation"@.len() == 8);
    assert("object"@.len() == 6);
}

/// Reading back the JSON written for a triple gives that triple: no
/// identifier is lost, changed or moved to another place. This holds of every
/// triple, and so of every well-formed one.
pub proof fn lemma_tuple_round_trip(t: TupleView)
    ensures
        tuple_of_json(tuple_json(t)) == Some(t),
{
    lemma_tuple_keys_differ();
}

/// Builds the tuple (`user`, `relation`, `object`).
pub fn make_tuple(user: &str, relation: &str, object: &str) -> (r: RelationshipTuple)
    ensures
        r@ == (TupleView { user: user@, relation: relation@, object: object@ }),
{
    RelationshipTuple {
        user: user.to_owned(),
        relation: relation.to_owned(),
        object: object.to_owned(),
    }
}

impl RelationshipTuple {
    /// Whether none of the three identifiers is empty.
    pub fn is_well_formed(&self) -> (r: bool)
        ensures
            r == self@.well_formed(),
    {
        !self.user.as_str().is_empty() && !self.relation.as_str().is_empty()
            && !self.object.as_str().is_empty()
    }

    /// The JSON object that stands for this tuple on the wire.
    pub fn to_json(&self) -> (r: serde_json::Value)
        ensures
            value_json(r) == tuple_json(self@),
    {
        proof {
            lemma_tuple_keys_differ();
        }
        ObjectBuilder::new().with("user", json_text(self.user.clone())).with(
            "relation",
            json_text(self.relation.clone()),
        ).with("object", json_text(self.object.clone())).build()
    }

    /// Reads a tuple from the JSON document `doc`.
    pub fn from_json(doc: &serde_json::Value) -> (r: Option<RelationshipTuple>)
        ensures
            match r {
                Some(t) => tuple_of_json(value_json(*doc)) == Some(t@),
                None => tuple_of_json(value_json(*doc)) is None,
            },
    {
        let user = text_member(doc, "user");
        let relation = text_member(doc, "relation");
        let object = text_member(doc, "object");
        match (user, relation, object) {
            (Some(user), Some(relation), Some(object)) => Some(
                RelationshipTuple { user, relation, object },
            ),
            _ => None,
        }
    }
}

/// An ordered batch of tuples for one write or delete.
#[derive(Debug, Clone, PartialEq, Eq)]
pub struct TupleKeys {
    pub tuple_keys: Vec<RelationshipTuple>,
}

impl View for TupleKeys {
    type V = Seq<TupleView>;

    open spec fn view(&self) -> Seq<TupleView> {
        self.tuple_keys@.map_values(|t: RelationshipTuple| t@)
    }
}

/// The JSON object that stands for a batch: its tuples, in their order, as
/// the array member `tuple_keys`.
pub open spec fn tuple_keys_json(batch: Seq<TupleView>) -> Json {
    Json::Object(
        map![
            "tuple_keys"@ => Json::Array(batch.map_values(|t: TupleView| tuple_json(t))),
        ],
    )
}

impl TupleKeys {
    /// The JSON object that stands for this batch on the wire.
    pub fn to_json(&self) -> (r: serde_json::Value)
        ensures
            value_json(r) == tuple_keys_json(self@),
    {
        let mut items: Vec<serde_json::Value> = Vec::new();
        let mut i: usize = 0;
        while i < self.tuple_keys.len()
            invariant
                i <= self.tuple_keys.len(),
                items.len() == i,
                forall|k: int|
                    0 <= k < i ==> value_json(#[trigger] items[k]) == tuple_json(
                        self.tuple_keys[k]@,
                    ),
            decreases self.tuple_keys.len() - i,
        {
            items.push(self.tuple_keys[i].to_json());
            i += 1;
        }
        assert(values_json(items@) =~= self@.map_values(|t: TupleView| tuple_json(t)));
        ObjectBuilder::new().with("tuple_keys", json_array(items)).build()
    }
}

/// What a call to the write endpoint is to do with its batch.
#[derive(Debug, Clone, PartialEq, Eq)]
pub enum RelationshipAction {
    /// Store the tuples of the batch.
    Writes(TupleKeys),
    /// Remove the tuples of the batch.
    Deletes(TupleKeys),
}

/// What a [`RelationshipAction`] holds.
pub enum ActionView {
    Writes(Seq<TupleView>),
    Deletes(Seq<TupleView>),
}

impl View for RelationshipAction {
    type V = ActionView;

    open spec fn view(&self) -> ActionView {
        match self {
            RelationshipAction::Writes(batch) => ActionView::Writes(batch@),
            RelationshipAction::Deletes(batch) => ActionView::Deletes(batch@),
        }
    }
}

impl ActionView {
    /// The member name under which the batch travels: `writes` or `deletes`.
    pub open spec fn tag(self) -> Seq<char> {
        match self {
            ActionView::Writes(_) => "writes"@,
            ActionView::Deletes(_) => "deletes"@,
        }
    }

    /// The tuples that the action is about.
    pub open spec fn batch(self) -> Seq<TupleView> {
        match self {
            ActionView::Writes(batch) => batch,
            ActionView::Deletes(batch) => batch,
        }
    }
}

/// The body of a call to the write endpoint: the model that the tuples are
/// read against, and the action.
#[derive(Debug, Clone, PartialEq, Eq)]
pub struct WriteRelationshipTupleSchema {
    pub authorization_model_id: String,
    pub relationship_action: RelationshipAction,
}

/// What a [`WriteRelationshipTupleSchema`] holds.
pub struct WriteSchemaView {
    pub authorization_model_id: Seq<char>,
    pub relationship_action: ActionView,
}

impl View for WriteRelationshipTupleSchema {
    type V = WriteSchemaView;

    open spec fn view(&self) -> WriteSchemaView {
        WriteSchemaView {
            authorization_model_id: self.authorization_model_id@,
            relationship_action: self.relationship_action@,
        }
    }
}

/// The JSON object that stands for a write body: the model id as the string
/// member `authorization_model_id`, and the batch as one member named by the
/// action's tag. The action has no member of its own.
pub open spec fn write_schema_json(body: WriteSchemaView) -> Json {
    Json::Object(
        map![
            "authorization_model_id"@ => Json::Text(body.authorization_model_id),
            body.relationship_action.tag() => tuple_keys_json(body.relationship_action.batch()),
        ],
    )
}

/// A write body names its batch `writes` and has no member `deletes`; a
/// delete body names its batch `deletes` and has no member `writes`. So a
/// body tells the service one action, and which.
pub proof fn lemma_body_names_one_action(body: WriteSchemaView)
    ensures
        match body.relationship_action {
            ActionView::Writes(batch) => member_of(write_schema_json(body), "writes"@) == Some(
                tuple_keys_json(batch),
            ) && member_of(write_schema_json(body), "deletes"@) is None,
            ActionView::Deletes(batch) => member_of(write_schema_json(body), "deletes"@) == Some(
                tuple_keys_json(batch),
            ) && member_of(write_schema_json(body), "writes"@) is None,
        },
{
    lemma_body_keys_differ();
}

/// The member names of the request bodies differ from each other.
pub proof fn lemma_body_keys_differ()
    ensures
        "authorization_model_id"@ != "writes"@,
        "authorization_model_id"@ != "deletes"@,
        "authorization_model_id"@ != "tuple_key"@,
        "writes"@ != "deletes"@,
{
    reveal_strlit("authorization_model_id");
    reveal_strlit("writes");
    reveal_strlit("deletes");
    reveal_strlit("tuple_key");
    assert("authorization_model_id"@.len() == 22);
    assert("writes"@.len() == 6);
    assert("deletes"@.len() == 7);
    assert("tuple_key"@.len() == 9);
}

impl WriteRelationshipTupleSchema {
    /// The JSON object that stands for this body on the wire.
    pub fn to_json(&self) -> (r: serde_json::Value)
        ensures
            value_json(r) == write_schema_json(self@),
    {
        proof {
            lemma_body_keys_differ();
        }
        let id = json_text(self.authorization_model_id.clone());
        let body = ObjectBuilder::new().with("authorization_model_id", id);
        match &self.relationship_action {
            RelationshipAction::Writes(batch) => body.with("writes", batch.to_json()).build(),
            RelationshipAction::Deletes(batch) => body.with("deletes", batch.to_json()).build(),
        }
    }
}

/// The body of a call to the check endpoint: the model to decide by, and the
/// tuple in question.
#[derive(Debug, Clone, PartialEq, Eq)]
pub struct CheckRequest {
    pub authorization_model_id: String,
    pub tuple_key: RelationshipTuple,
}

/// What a [`CheckRequest`] holds.
pub struct CheckRequestView {
    pub authorization_model_id: Seq<char>,
    pub tuple_key: TupleView,
}

impl View for CheckRequest {
    type V = CheckRequestView;

    open spec fn view(&self) -> CheckRequestView {
        CheckRequestView {
            authorization_model_id: self.authorization_model_id@,
            tuple_key: self.tuple_key@,
        }
    }
}

/// The JSON object that stands for a check body: the model id as the string
/// member `authorization_model_id`, the tuple as the member `tuple_key`.
pub open spec fn check_request_json(body: CheckRequestView) -> Json {
    Json::Object(
        map![
            "authorization_model_id"@ => Json::Text(body.authorization_model_id),
            "tuple_key"@ => tuple_json(body.tuple_key),
        ],
    )
}

impl CheckRequest {
    /// The JSON object that stands for this body on the wire.
    pub fn to_json(&self) -> (r: serde_json::Value)
        ensures
            value_json(r) == check_request_json(self@),
    {
        proof {
            lemma_body_keys_differ();
        }
        let id = json_text(self.authorization_model_id.clone());
        ObjectBuilder::new().with("authorization_model_id", id).with(
            "tuple_key",
            self.tuple_key.to_json(),
        ).build()
    }
}

/// The answer to a write or a delete that was carried out. It holds nothing.
#[derive(Debug, Clone, PartialEq, Eq)]
pub struct WriteRelationshipTupleResponse {}

impl View for WriteRelationshipTupleResponse {
    type V = ();

    open spec fn view(&self) -> () {
        ()
    }
}

impl Payload for WriteRelationshipTupleResponse {
    /// Any object. Its members are ignored.
    open spec fn of_json(doc: Json) -> Option<()> {
        if doc is Object {
            Some(())
        } else {
            None
        }
    }

    fn from_json(doc: &serde_json::Value) -> (r: Option<WriteRelationshipTupleResponse>) {
        if doc.is_object() {
            Some(WriteRelationshipTupleResponse {  })
        } else {
            None
        }
    }
}

/// The service's decision on a check.
#[derive(Debug, Clone, PartialEq, Eq)]
pub struct CheckResponse {
    pub allowed: bool,
}

impl View for CheckResponse {
    type V = bool;

    open spec fn view(&self) -> bool {
        self.allowed
    }
}

impl Payload for CheckResponse {
    /// An object with the boolean member `allowed`.
    open spec fn of_json(doc: Json) -> Option<bool> {
        bool_of(doc, "allowed"@)
    }

    fn from_json(doc: &serde_json::Value) -> (r: Option<CheckResponse>) {
        match bool_member(doc, "allowed") {
            Some(allowed) => Some(CheckResponse { allowed }),
            None => None,
        }
    }
}

/// The decision read from a reply to a check is the one that the service
/// gave: where the reply is no service error and has the boolean member
/// `allowed`, that boolean is the result, unchanged.
pub proof fn lemma_check_reports_the_service_decision(doc: Json, allowed: bool)
    requires
        bool_of(doc, "allowed"@) == Some(allowed),
        service_error_of(doc) is None,
    ensures
        reply_of::<CheckResponse>(doc) == Ok::<bool, ErrorsView>(allowed),
{
}

/// The document with the one member `allowed` is no service error, so the
/// decision in it is what a check reports.
pub proof fn lemma_check_decision_document(allowed: bool)
    ensures
        reply_of::<CheckResponse>(Json::Object(map!["allowed"@ => Json::Bool(allowed)])) == Ok::<
            bool,
            ErrorsView,
        >(allowed),
{
    reveal_strlit("allowed");
    reveal_strlit("code");
    assert("allowed"@.len() == 7);
    assert("code"@.len() == 4);
}

} // verus!
