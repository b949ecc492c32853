use product_service::body::BodyBuffer;
use product_service::error::ServiceError;
use product_service::handlers::{
    add_product, delete_product, get_product, get_products, health, resolve_version,
    update_product, Health, Response, STATUS_OK,
};
use product_service::product::Product;
use product_service::store::Store;

fn product(id: i32, name: &str, price: f32, description: &str, image: &str) -> Product {
    Product {
        id,
        name: name.to_string(),
        price_bits: price.to_bits(),
        description: description.to_string(),
        image: image.to_string(),
    }
}

fn id_of(response: &Response) -> i32 {
    match response {
        Response::Record(p) => p.id,
        other => panic!("no record in {:?}", other),
    }
}

#[test]
fn create_create_delete_create_reuses_the_id() {
    let mut store = Store::new();
    let first = add_product(&mut store, Ok(Some(product(0, "A", 1.0, "d", "u"))));
    assert_eq!(first, Response::Record(product(1, "A", 1.0, "d", "u")));
    let second = add_product(&mut store, Ok(Some(product(0, "B", 2.0, "d", "u"))));
    assert_eq!(id_of(&second), 2);
    assert_eq!(delete_product(&mut store, 1), Response::Empty);
    let third = add_product(&mut store, Ok(Some(product(0, "C", 3.0, "d", "u"))));
    assert_eq!(id_of(&third), 2);
    assert_eq!(store.len(), 2);
}

#[test]
fn health_reports_ok_and_the_version() {
    let version = resolve_version(Some("1.2.3".to_string()));
    assert_eq!(
        health(&version),
        Response::Health(Health { status: "ok".to_string(), version: "1.2.3".to_string() })
    );
    assert_eq!(health(&version).status_code(), 200);
}

#[test]
fn version_defaults_when_none_is_configured() {
    assert_eq!(resolve_version(None), "0.1.0");
    assert_eq!(resolve_version(Some("0.2".to_string())), "0.2");
    assert_eq!(resolve_version(Some(String::new())), "");
}

#[test]
fn get_products_lists_in_insertion_order() {
    let mut store = Store::new();
    assert_eq!(get_products(&store), Response::Records(vec![]));
    add_product(&mut store, Ok(Some(product(0, "A", 1.0, "d", "u"))));
    add_product(&mut store, Ok(Some(product(0, "B", 2.0, "e", "v"))));
    let response = get_products(&store);
    assert_eq!(
        response,
        Response::Records(vec![product(1, "A", 1.0, "d", "u"), product(2, "B", 2.0, "e", "v")])
    );
    assert_eq!(response.status_code(), STATUS_OK);
    assert_eq!(get_products(&store), response);
}

#[test]
fn get_product_finds_a_record() {
    let mut store = Store::new();
    add_product(&mut store, Ok(Some(product(0, "A", 1.0, "d", "u"))));
    let response = get_product(&store, 1);
    assert_eq!(response, Response::Record(product(1, "A", 1.0, "d", "u")));
    assert_eq!(response.status_code(), 200);
}

#[test]
fn get_product_of_a_missing_id_is_not_found() {
    let store = Store::new();
    let response = get_product(&store, 42);
    assert_eq!(response, Response::Failure(ServiceError::NotFound));
    assert_eq!(response.status_code(), 404);
}

#[test]
fn add_product_ignores_the_id_in_the_body() {
    let mut store = Store::new();
    let response = add_product(&mut store, Ok(Some(product(77, "A", 1.0, "d", "u"))));
    assert_eq!(response, Response::Record(product(1, "A", 1.0, "d", "u")));
    assert_eq!(get_product(&store, 77), Response::Failure(ServiceError::NotFound));
}

#[test]
fn add_product_refuses_an_undecoded_body() {
    let mut store = Store::new();
    let response = add_product(&mut store, Ok(None));
    assert_eq!(response, Response::Failure(ServiceError::MalformedPayload));
    assert_eq!(response.status_code(), 400);
    assert_eq!(store.len(), 0);
}

#[test]
fn update_product_replaces_by_the_id_in_the_body() {
    let mut store = Store::new();
    add_product(&mut store, Ok(Some(product(0, "A", 1.0, "d", "u"))));
    add_product(&mut store, Ok(Some(product(0, "B", 2.0, "d", "u"))));
    let response = update_product(&mut store, Ok(Some(product(1, "A2", 9.5, "d2", "u2"))));
    assert_eq!(response, Response::Record(product(1, "A2", 9.5, "d2", "u2")));
    assert_eq!(
        get_products(&store),
        Response::Records(vec![product(1, "A2", 9.5, "d2", "u2"), product(2, "B", 2.0, "d", "u")])
    );
}

#[test]
fn update_product_of_a_missing_id_is_not_found() {
    let mut store = Store::new();
    add_product(&mut store, Ok(Some(product(0, "A", 1.0, "d", "u"))));
    let response = update_product(&mut store, Ok(Some(product(5, "X", 1.0, "d", "u"))));
    assert_eq!(response, Response::Failure(ServiceError::NotFound));
    assert_eq!(response.status_code(), 404);
    assert_eq!(get_products(&store), Response::Records(vec![product(1, "A", 1.0, "d", "u")]));
}

#[test]
fn update_product_refuses_an_undecoded_body() {
    let mut store = Store::new();
    add_product(&mut store, Ok(Some(product(0, "A", 1.0, "d", "u"))));
    let response = update_product(&mut store, Ok(None));
    assert_eq!(response, Response::Failure(ServiceError::MalformedPayload));
    assert_eq!(store.len(), 1);
}

#[test]
fn delete_product_answers_with_an_empty_body() {
    let mut store = Store::new();
    add_product(&mut store, Ok(Some(product(0, "A", 1.0, "d", "u"))));
    let response = delete_product(&mut store, 1);
    assert_eq!(response, Response::Empty);
    assert_eq!(response.status_code(), 200);
    assert_eq!(get_product(&store, 1), Response::Failure(ServiceError::NotFound));
    assert_eq!(get_products(&store), Response::Records(vec![]));
}

#[test]
fn delete_product_of_a_missing_id_is_not_found() {
    let mut store = Store::new();
    let response = delete_product(&mut store, 1);
    assert_eq!(response, Response::Failure(ServiceError::NotFound));
    assert_eq!(response.status_code(), 404);
}

#[test]
fn every_failure_is_a_client_error() {
    assert_eq!(ServiceError::NotFound.status_code(), 404);
    assert_eq!(ServiceError::MalformedPayload.status_code(), 400);
    assert_eq!(ServiceError::PayloadTooLarge.status_code(), 400);
    assert_eq!(ServiceError::TransportIO.status_code(), 400);
    for e in [
        ServiceError::NotFound,
        ServiceError::MalformedPayload,
        ServiceError::PayloadTooLarge,
        ServiceError::TransportIO,
    ] {
        assert_eq!(Response::Failure(e).status_code(), e.status_code());
    }
}

#[test]
fn every_failure_has_its_words() {
    assert_eq!(ServiceError::NotFound.reason(), "not found");
    assert_eq!(ServiceError::MalformedPayload.reason(), "malformed payload");
    assert_eq!(ServiceError::PayloadTooLarge.reason(), "overflow");
    assert_eq!(ServiceError::TransportIO.reason(), "transport error");
}

#[test]
fn add_product_answers_a_failed_reception_with_its_failure() {
    let mut store = Store::new();
    for e in [ServiceError::PayloadTooLarge, ServiceError::TransportIO] {
        let response = add_product(&mut store, Err(e));
        assert_eq!(response, Response::Failure(e));
        assert_eq!(response.status_code(), 400);
    }
    assert_eq!(store.len(), 0);
}

#[test]
fn update_product_answers_a_failed_reception_with_its_failure() {
    let mut store = Store::new();
    add_product(&mut store, Ok(Some(product(0, "A", 1.0, "d", "u"))));
    for e in [ServiceError::PayloadTooLarge, ServiceError::TransportIO] {
        assert_eq!(update_product(&mut store, Err(e)), Response::Failure(e));
    }
    assert_eq!(get_products(&store), Response::Records(vec![product(1, "A", 1.0, "d", "u")]));
}

#[test]
fn oversized_body_never_reaches_the_store() {
    let mut store = Store::new();
    let mut body = BodyBuffer::new();
    body.push_chunk(&vec![b' '; 262_144]).unwrap();
    let received = body.push_chunk(b"{").map(|_| Some(product(0, "A", 1.0, "d", "u")));
    let response = add_product(&mut store, received);
    assert_eq!(response, Response::Failure(ServiceError::PayloadTooLarge));
    assert_eq!(response.status_code(), 400);
    assert_eq!(store.len(), 0);
}
