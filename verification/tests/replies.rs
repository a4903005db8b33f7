use openfga::error::{Errors, OpenFGAError};
use openfga::model::{
    model_from_text, AuthorizationModel, GetAuthorizationModelsResponse,
    WriteAuthorizationModelResponse,
};
use openfga::relationship::{CheckResponse, WriteRelationshipTupleResponse};
use openfga::store::CreateDataStoreResponse;
use openfga::transport::{read_reply, read_response};

const INTERNAL_ERROR: &str = r#"{"code":"internal_error","message":"Internal Server Error"}"#;

fn internal_error() -> Errors {
    Errors::ServiceError(OpenFGAError {
        code: "internal_error".to_string(),
        message: "Internal Server Error".to_string(),
    })
}

#[test]
fn store_reply_is_read() {
    let reply = r#"{"id":"01HJ3FP23AS376NVDBECMZBAPT", "name":"FGA Demo Store", "created_at":"2023-12-20T11:27:27.850720014Z", "updated_at":"2023-12-20T11:27:28.850720014Z"}"#;
    assert_eq!(
        read_response::<CreateDataStoreResponse>(reply.as_bytes()),
        Ok(CreateDataStoreResponse {
            id: "01HJ3FP23AS376NVDBECMZBAPT".to_string(),
            name: "FGA Demo Store".to_string(),
            created_at: "2023-12-20T11:27:27.850720014Z".to_string(),
            updated_at: "2023-12-20T11:27:28.850720014Z".to_string(),
        })
    );
}

#[test]
fn store_reply_without_a_member_is_malformed() {
    let reply = r#"{"id":"S","name":"demo","created_at":"t"}"#;
    assert_eq!(
        read_response::<CreateDataStoreResponse>(reply.as_bytes()),
        Err(Errors::MalformedResponse)
    );
}

#[test]
fn model_id_reply_is_read() {
    let reply = r#"{"authorization_model_id":"01HJ8QTTREQ7QJ9P5BCK0RHH5F"}"#;
    assert_eq!(
        read_response::<WriteAuthorizationModelResponse>(reply.as_bytes()),
        Ok(WriteAuthorizationModelResponse {
            authorization_model_id: "01HJ8QTTREQ7QJ9P5BCK0RHH5F".to_string()
        })
    );
}

#[test]
fn models_reply_is_read_in_the_order_given() {
    let reply = r#"{
        "authorization_models": [
            {"id": "01G50QVV17PECNVAHX1GG4Y5NC", "type_definitions": [{"type":"user"}, 7]},
            {"id": "01G4ZW8F4A07AKQ8RHSVG9RW04", "type_definitions": [], "schema_version": "1.1"}
        ],
        "continuation_token": "eyJwayI6IkxBVEVTVF9OU0NPTkZJR19hdXRoMHN0b3JlIn0=="
    }"#;
    let first_definition: serde_json::Value = serde_json::from_str(r#"{"type":"user"}"#).unwrap();
    let second_definition: serde_json::Value = serde_json::from_str("7").unwrap();
    assert_eq!(
        read_response::<GetAuthorizationModelsResponse>(reply.as_bytes()),
        Ok(GetAuthorizationModelsResponse {
            authorization_models: vec![
                AuthorizationModel {
                    id: "01G50QVV17PECNVAHX1GG4Y5NC".to_string(),
                    type_definitions: vec![first_definition, second_definition],
                },
                AuthorizationModel {
                    id: "01G4ZW8F4A07AKQ8RHSVG9RW04".to_string(),
                    type_definitions: vec![],
                },
            ],
            continuation_token: "eyJwayI6IkxBVEVTVF9OU0NPTkZJR19hdXRoMHN0b3JlIn0==".to_string(),
        })
    );
}

#[test]
fn models_reply_with_one_bad_model_is_malformed() {
    let reply = r#"{"authorization_models":[{"id":"a","type_definitions":[]},{"id":"b"}],"continuation_token":""}"#;
    assert_eq!(
        read_response::<GetAuthorizationModelsResponse>(reply.as_bytes()),
        Err(Errors::MalformedResponse)
    );
}

#[test]
fn models_reply_without_a_token_is_malformed() {
    let reply = r#"{"authorization_models":[]}"#;
    assert_eq!(
        read_response::<GetAuthorizationModelsResponse>(reply.as_bytes()),
        Err(Errors::MalformedResponse)
    );
}

#[test]
fn write_reply_is_any_object() {
    assert_eq!(
        read_response::<WriteRelationshipTupleResponse>(b"{}"),
        Ok(WriteRelationshipTupleResponse {})
    );
    assert_eq!(
        read_response::<WriteRelationshipTupleResponse>(br#"{"note":"done"}"#),
        Ok(WriteRelationshipTupleResponse {})
    );
    assert_eq!(
        read_response::<WriteRelationshipTupleResponse>(b"[]"),
        Err(Errors::MalformedResponse)
    );
}

#[test]
fn check_reply_gives_the_decision_of_the_service() {
    assert_eq!(
        read_response::<CheckResponse>(br#"{"allowed":true}"#),
        Ok(CheckResponse { allowed: true })
    );
    assert_eq!(
        read_response::<CheckResponse>(br#"{"allowed":false,"resolution":""}"#),
        Ok(CheckResponse { allowed: false })
    );
}

#[test]
fn check_reply_with_a_decision_that_is_no_boolean_is_malformed() {
    assert_eq!(
        read_response::<CheckResponse>(br#"{"allowed":"true"}"#),
        Err(Errors::MalformedResponse)
    );
    assert_eq!(read_response::<CheckResponse>(b"{}"), Err(Errors::MalformedResponse));
}

#[test]
fn service_error_is_surfaced_for_every_kind_of_reply() {
    let reply = INTERNAL_ERROR.as_bytes();
    assert_eq!(read_response::<CreateDataStoreResponse>(reply), Err(internal_error()));
    assert_eq!(read_response::<WriteAuthorizationModelResponse>(reply), Err(internal_error()));
    assert_eq!(read_response::<GetAuthorizationModelsResponse>(reply), Err(internal_error()));
    assert_eq!(read_response::<WriteRelationshipTupleResponse>(reply), Err(internal_error()));
    assert_eq!(read_response::<CheckResponse>(reply), Err(internal_error()));
}

#[test]
fn service_error_wins_over_a_payload_in_the_same_document() {
    let reply = br#"{"allowed":true,"code":"c","message":"m"}"#;
    assert_eq!(
        read_response::<CheckResponse>(reply),
        Err(Errors::ServiceError(OpenFGAError { code: "c".to_string(), message: "m".to_string() }))
    );
}

#[test]
fn document_with_half_an_error_is_no_service_error() {
    assert_eq!(
        read_response::<CheckResponse>(br#"{"code":"c","allowed":true}"#),
        Ok(CheckResponse { allowed: true })
    );
    assert_eq!(
        read_response::<CheckResponse>(br#"{"code":"c","message":5,"allowed":true}"#),
        Ok(CheckResponse { allowed: true })
    );
    assert_eq!(
        read_response::<CheckResponse>(br#"{"code":"c"}"#),
        Err(Errors::MalformedResponse)
    );
}

#[test]
fn reply_that_is_not_json_is_malformed() {
    assert_eq!(read_response::<CheckResponse>(b""), Err(Errors::MalformedResponse));
    assert_eq!(read_response::<CheckResponse>(b"<html>"), Err(Errors::MalformedResponse));
    assert_eq!(
        read_response::<CheckResponse>(br#"{"allowed":true} x"#),
        Err(Errors::MalformedResponse)
    );
    assert_eq!(read_response::<CheckResponse>(&[0xff, 0xfe]), Err(Errors::MalformedResponse));
}

#[test]
fn read_reply_sorts_a_document_already_parsed() {
    let doc: serde_json::Value = serde_json::from_str(r#"{"allowed":true}"#).unwrap();
    assert_eq!(read_reply::<CheckResponse>(&doc), Ok(CheckResponse { allowed: true }));
    let doc: serde_json::Value = serde_json::from_str(INTERNAL_ERROR).unwrap();
    assert_eq!(read_reply::<CheckResponse>(&doc), Err(internal_error()));
    let doc: serde_json::Value = serde_json::from_str("3").unwrap();
    assert_eq!(read_reply::<CheckResponse>(&doc), Err(Errors::MalformedResponse));
}

#[test]
fn service_error_announces_itself_with_its_message() {
    let e = OpenFGAError {
        code: "internal_error".to_string(),
        message: "Internal Server Error".to_string(),
    };
    assert_eq!(e.to_text(), "OpenFGAError: Internal Server Error");
}

#[test]
fn model_text_is_read_as_a_document() {
    let text = r#" {"schema_version":"1.1","type_definitions":[{"type":"user"}]} "#;
    let expected: serde_json::Value = serde_json::from_str(text).unwrap();
    assert_eq!(model_from_text(text), Ok(expected));
}

#[test]
fn model_text_that_is_not_json_is_refused() {
    assert_eq!(model_from_text("{schema_version"), Err(Errors::InvalidDocument));
    assert_eq!(model_from_text(""), Err(Errors::InvalidDocument));
}
