use openfga::error::Errors;
use openfga::openfga::{create_openfga_client, OpenFGAClient, OpenFGAConfig};
use openfga::relationship::{make_tuple, RelationshipAction, TupleKeys};
use openfga::store::CreateDataStoreSchema;
use openfga::relationship::CheckResponse;
use openfga::transport::{
    auth_headers, make_request, make_request_with_param, request_to, Exchange, HttpRequest,
    Method, Outcome, Payload,
};

fn json(text: &str) -> serde_json::Value {
    serde_json::from_str(text).unwrap()
}

fn bytes(text: &str) -> Vec<u8> {
    serde_json::to_vec(&json(text)).unwrap()
}

fn json_content() -> Vec<(String, String)> {
    vec![("Content-Type".to_string(), "application/json".to_string())]
}

fn config() -> OpenFGAConfig {
    OpenFGAConfig { base_url: "http://localhost:8080".to_string(), api_token: None }
}

fn client(store: Option<&str>, model: Option<&str>) -> OpenFGAClient {
    create_openfga_client(config(), store.map(str::to_string), model.map(str::to_string)).unwrap()
}

fn described<T: Payload>(exchange: Result<Exchange<T>, Errors>) -> Result<HttpRequest, Errors> {
    exchange.map(Exchange::into_request)
}

fn plain(
    config: &OpenFGAConfig,
    path: &str,
    method: Method,
    body: Option<serde_json::Value>,
) -> Result<HttpRequest, Errors> {
    described(make_request::<CheckResponse>(config, path, method, body))
}

fn batch() -> TupleKeys {
    TupleKeys { tuple_keys: vec![make_tuple("user:alex", "reader", "document:id123")] }
}

#[test]
fn client_keeps_what_it_was_made_with() {
    let c = client(Some("S"), Some("M"));
    assert_eq!(c.config(), &config());
    assert_eq!(c.store_id(), Some(&"S".to_string()));
    assert_eq!(c.model_id(), Some(&"M".to_string()));
    let c = client(Some("S"), None);
    assert_eq!(c.store_id(), Some(&"S".to_string()));
    assert_eq!(c.model_id(), None);
    let c = client(None, None);
    assert_eq!(c.store_id(), None);
    assert_eq!(c.model_id(), None);
}

#[test]
fn client_with_a_model_and_no_store_is_refused() {
    assert_eq!(
        create_openfga_client(config(), None, Some("M".to_string())),
        Err(Errors::MissingStoreId)
    );
}

#[test]
fn request_has_no_header_without_a_token() {
    assert_eq!(auth_headers(&config()), vec![]);
    let request = plain(&config(), "/stores", Method::Get, None).unwrap();
    assert_eq!(request.headers, vec![]);
}

#[test]
fn request_carries_the_token_as_it_is() {
    let config = OpenFGAConfig {
        base_url: "http://localhost:8080".to_string(),
        api_token: Some("Bearer abc123".to_string()),
    };
    let expected = vec![("Authorization".to_string(), "Bearer abc123".to_string())];
    assert_eq!(auth_headers(&config), expected);
    let c = create_openfga_client(config, Some("S".to_string()), Some("M".to_string())).unwrap();
    assert_eq!(c.get_authorization_models().unwrap().request().headers, expected);
    assert_eq!(
        c.check(make_tuple("u", "r", "o")).unwrap().request().headers,
        vec![
            ("Authorization".to_string(), "Bearer abc123".to_string()),
            ("Content-Type".to_string(), "application/json".to_string()),
        ]
    );
}

#[test]
fn request_url_is_the_base_url_with_the_path_appended() {
    let request = plain(&config(), "/stores", Method::Post, Some(json("{}"))).unwrap();
    assert_eq!(
        request,
        HttpRequest {
            method: Method::Post,
            url: "http://localhost:8080/stores".to_string(),
            headers: json_content(),
            body: Some(b"{}".to_vec()),
        }
    );
}

#[test]
fn request_url_is_brought_into_its_normal_form() {
    let config = OpenFGAConfig { base_url: "HTTP://LocalHost:80".to_string(), api_token: None };
    let request = plain(&config, "/a/../stores", Method::Get, None).unwrap();
    assert_eq!(request.url, "http://localhost/stores");
    assert_eq!(request.body, None);
}

#[test]
fn request_under_a_base_that_is_no_url_is_refused() {
    let config = OpenFGAConfig { base_url: "localhost:8080".to_string(), api_token: None };
    assert!(plain(&config, "/stores", Method::Get, None).is_ok());
    let config = OpenFGAConfig { base_url: "no url at all".to_string(), api_token: None };
    assert_eq!(plain(&config, "/stores", Method::Get, None), Err(Errors::InvalidUrl));
    let config = OpenFGAConfig { base_url: "".to_string(), api_token: None };
    assert_eq!(plain(&config, "/stores", Method::Get, None), Err(Errors::InvalidUrl));
    let c = create_openfga_client(config, Some("S".to_string()), Some("M".to_string())).unwrap();
    assert_eq!(described(c.check(make_tuple("u", "r", "o"))), Err(Errors::InvalidUrl));
    assert_eq!(described(c.write_tuples(batch())), Err(Errors::InvalidUrl));
    assert_eq!(described(c.get_authorization_models()), Err(Errors::InvalidUrl));
}

#[test]
fn request_with_a_parameter_encodes_its_value() {
    let request = described(make_request_with_param::<CheckResponse>(
        &config(),
        "/stores",
        "name",
        "a b&c=d",
        Method::Get,
        None,
    ))
    .unwrap();
    assert_eq!(request.url, "http://localhost:8080/stores?name=a+b%26c%3Dd");
    let bad = OpenFGAConfig { base_url: "".to_string(), api_token: None };
    assert_eq!(
        described(make_request_with_param::<CheckResponse>(
            &bad,
            "/stores",
            "name",
            "x",
            Method::Get,
            None
        )),
        Err(Errors::InvalidUrl)
    );
}

#[test]
fn create_store_needs_no_binding() {
    let request = described(
        client(None, None).create_data_store(CreateDataStoreSchema { name: "demo".to_string() }),
    );
    assert_eq!(
        request,
        Ok(HttpRequest {
            method: Method::Post,
            url: "http://localhost:8080/stores".to_string(),
            headers: json_content(),
            body: Some(br#"{"name":"demo"}"#.to_vec()),
        })
    );
}

#[test]
fn publish_model_sends_the_document_as_it_is() {
    let model = json(r#"{"schema_version":"1.1","type_definitions":[{"type":"user"}],"n":1.5}"#);
    let request = described(client(Some("S"), None).write_authorization_model(model.clone()));
    assert_eq!(
        request,
        Ok(HttpRequest {
            method: Method::Post,
            url: "http://localhost:8080/stores/S/authorization-models".to_string(),
            headers: json_content(),
            body: Some(serde_json::to_vec(&model).unwrap()),
        })
    );
}

#[test]
fn publish_model_needs_a_store() {
    assert_eq!(
        described(client(None, None).write_authorization_model(json("{}"))),
        Err(Errors::MissingStoreId)
    );
}

#[test]
fn list_models_is_a_get_without_a_body() {
    assert_eq!(
        described(client(Some("S"), None).get_authorization_models()),
        Ok(HttpRequest {
            method: Method::Get,
            url: "http://localhost:8080/stores/S/authorization-models".to_string(),
            headers: vec![],
            body: None,
        })
    );
}

#[test]
fn list_models_needs_a_store() {
    assert_eq!(
        described(client(None, None).get_authorization_models()),
        Err(Errors::MissingStoreId)
    );
    assert_eq!(
        described(client(None, None).get_authorization_models_after("t")),
        Err(Errors::MissingStoreId)
    );
}

#[test]
fn list_models_goes_on_from_a_token() {
    let request =
        described(client(Some("S"), Some("M")).get_authorization_models_after("eyJwayI6=="));
    assert_eq!(
        request,
        Ok(HttpRequest {
            method: Method::Get,
            url: "http://localhost:8080/stores/S/authorization-models?continuation_token=eyJwayI6%3D%3D"
                .to_string(),
            headers: vec![],
            body: None,
        })
    );
}

#[test]
fn write_and_delete_without_a_store_fail_with_missing_store_id() {
    let c = client(None, None);
    assert_eq!(described(c.write_tuples(batch())), Err(Errors::MissingStoreId));
    assert_eq!(described(c.delete_tuples(batch())), Err(Errors::MissingStoreId));
    assert_eq!(
        described(c.write_relationship_tuple(RelationshipAction::Writes(batch()))),
        Err(Errors::MissingStoreId)
    );
}

#[test]
fn write_and_delete_without_a_model_fail_with_missing_model_id() {
    let c = client(Some("S"), None);
    assert_eq!(described(c.write_tuples(batch())), Err(Errors::MissingModelId));
    assert_eq!(described(c.delete_tuples(batch())), Err(Errors::MissingModelId));
}

#[test]
fn write_posts_the_batch_under_writes() {
    assert_eq!(
        described(client(Some("S"), Some("M")).write_tuples(batch())),
        Ok(HttpRequest {
            method: Method::Post,
            url: "http://localhost:8080/stores/S/write".to_string(),
            headers: json_content(),
            body: Some(bytes(
                r#"{"authorization_model_id":"M","writes":{"tuple_keys":[{"user":"user:alex","relation":"reader","object":"document:id123"}]}}"#
            )),
        })
    );
}

#[test]
fn delete_posts_the_batch_under_deletes() {
    assert_eq!(
        described(client(Some("S"), Some("M")).delete_tuples(batch())),
        Ok(HttpRequest {
            method: Method::Post,
            url: "http://localhost:8080/stores/S/write".to_string(),
            headers: json_content(),
            body: Some(bytes(
                r#"{"authorization_model_id":"M","deletes":{"tuple_keys":[{"user":"user:alex","relation":"reader","object":"document:id123"}]}}"#
            )),
        })
    );
}

#[test]
fn check_without_a_store_fails_and_describes_no_request() {
    assert_eq!(
        described(client(None, None).check(make_tuple("user:alex", "reader", "document:id123"))),
        Err(Errors::MissingStoreId)
    );
}

#[test]
fn check_without_a_model_fails_with_missing_store_id_too() {
    assert_eq!(
        described(
            client(Some("S"), None).check(make_tuple("user:alex", "reader", "document:id123"))
        ),
        Err(Errors::MissingStoreId)
    );
}

#[test]
fn check_posts_the_model_and_the_tuple() {
    assert_eq!(
        described(
            client(Some("S"), Some("M"))
                .check(make_tuple("user:alex", "reader", "document:id123"))
        ),
        Ok(HttpRequest {
            method: Method::Post,
            url: "http://localhost:8080/stores/S/check".to_string(),
            headers: json_content(),
            body: Some(bytes(
                r#"{"authorization_model_id":"M","tuple_key":{"user":"user:alex","relation":"reader","object":"document:id123"}}"#
            )),
        })
    );
}

#[test]
fn missing_binding_is_found_before_a_bad_url() {
    let config = OpenFGAConfig { base_url: "".to_string(), api_token: None };
    let c = create_openfga_client(config, None, None).unwrap();
    assert_eq!(described(c.check(make_tuple("u", "r", "o"))), Err(Errors::MissingStoreId));
    assert_eq!(described(c.write_tuples(batch())), Err(Errors::MissingStoreId));
}

#[test]
fn exchange_reads_the_reply_as_the_payload_it_expects() {
    let c = client(Some("S"), Some("M"));
    let exchange = c.check(make_tuple("u", "r", "o")).unwrap();
    assert_eq!(exchange.read(br#"{"allowed":false}"#), Ok(CheckResponse { allowed: false }));
    assert_eq!(exchange.read(br#"{"id":"S"}"#), Err(Errors::MalformedResponse));
    let exchange = c.write_tuples(batch()).unwrap();
    assert_eq!(exchange.request(), &exchange.request().clone());
    assert_eq!(exchange.read(br#"{"allowed":false}"#).map(|_| ()), Ok(()));
}

#[test]
fn exchange_that_failed_is_a_network_failure() {
    let c = client(Some("S"), Some("M"));
    let exchange = c.check(make_tuple("u", "r", "o")).unwrap();
    assert_eq!(exchange.conclude(&Outcome::Failure), Err(Errors::NetworkFailure));
    let exchange = c.write_tuples(batch()).unwrap();
    assert_eq!(exchange.conclude(&Outcome::Failure), Err(Errors::NetworkFailure));
}

#[test]
fn exchange_that_was_answered_is_read() {
    let c = client(Some("S"), Some("M"));
    let exchange = c.check(make_tuple("u", "r", "o")).unwrap();
    assert_eq!(
        exchange.conclude(&Outcome::Reply(br#"{"allowed":true}"#.to_vec())),
        Ok(CheckResponse { allowed: true })
    );
    assert_eq!(
        exchange.conclude(&Outcome::Reply(b"oops".to_vec())),
        Err(Errors::MalformedResponse)
    );
}

#[test]
fn request_to_a_url_takes_it_as_it_is() {
    let config = OpenFGAConfig {
        base_url: "http://elsewhere".to_string(),
        api_token: Some("t".to_string()),
    };
    assert_eq!(
        request_to(&config, "http://localhost:8080/x".to_string(), Method::Post, Some(vec![49])),
        HttpRequest {
            method: Method::Post,
            url: "http://localhost:8080/x".to_string(),
            headers: vec![
                ("Authorization".to_string(), "t".to_string()),
                ("Content-Type".to_string(), "application/json".to_string()),
            ],
            body: Some(vec![49]),
        }
    );
    assert_eq!(
        request_to(&config, "http://localhost:8080/x".to_string(), Method::Get, None),
        HttpRequest {
            method: Method::Get,
            url: "http://localhost:8080/x".to_string(),
            headers: vec![("Authorization".to_string(), "t".to_string())],
            body: None,
        }
    );
}

#[test]
fn body_is_the_document_written_as_json_text() {
    let c = client(Some("S"), Some("M"));
    let request = c.check(make_tuple("user:alex", "reader", "document:id123")).unwrap();
    let body = request.request().body.clone().unwrap();
    assert_eq!(
        String::from_utf8(body.clone()).unwrap(),
        r#"{"authorization_model_id":"M","tuple_key":{"object":"document:id123","relation":"reader","user":"user:alex"}}"#
    );
    assert_eq!(
        serde_json::from_slice::<serde_json::Value>(&body).unwrap(),
        json(
            r#"{"authorization_model_id":"M","tuple_key":{"user":"user:alex","relation":"reader","object":"document:id123"}}"#
        )
    );
}
