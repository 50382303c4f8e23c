use catalog::reply::{catalog_error_reply, internal_error_reply, not_found_reply};
use catalog::store::{classify_insert_failure, plan_product_creation, product_from_row, validate_create_params};
use catalog::{CatalogError, CreateProductParams, Timestamp};

fn request(title: &str, handle: &str) -> CreateProductParams {
    CreateProductParams {
        title: title.to_string(),
        handle: handle.to_string(),
        price_cents: 3500,
        inventory_quantity: 10,
        published: true,
        description: None,
    }
}

#[test]
fn test_prd_prod_005_invalid_create_input_rejected() {
    let err = validate_create_params(&request("", "test-hoodie-validation")).unwrap_err();
    let reply = catalog_error_reply(&err);
    assert_eq!(reply.status, 400);
    assert_eq!(reply.code, "validation_failed");
    assert_eq!(reply.message, "Product title is required.");

    let err = validate_create_params(&request("Hoodie", "  ")).unwrap_err();
    let reply = catalog_error_reply(&err);
    assert_eq!(reply.status, 400);
    assert_eq!(reply.code, "validation_failed");
    assert_eq!(reply.message, "Product handle is required.");
}

#[test]
fn test_prd_prod_002_duplicate_handle_rejected() {
    let mut first = request("Test Hoodie", "test-hoodie-dup");
    first.published = false;
    let row = plan_product_creation(first, || ("test-id-123".to_string(), Timestamp { seconds: 0, nanos: 0 }))
        .map_err(|(err, _)| err)
        .unwrap();
    let created = product_from_row(row);
    assert_eq!(created.description, None);
    assert_eq!(created.published_at, None);

    let err = classify_insert_failure(
        "test-hoodie-dup".to_string(),
        true,
        tokio_postgres::Error::__private_api_timeout(),
    );
    let reply = catalog_error_reply(&err);
    assert_eq!(reply.status, 409);
    assert_eq!(reply.code, "duplicate_product_handle");
    assert_eq!(reply.message, "Another product already uses this handle: test-hoodie-dup");
}

#[test]
fn test_not_found_fallback() {
    let reply = not_found_reply("The requested resource does not exist.".to_string());
    assert_eq!(reply.status, 404);
    assert_eq!(reply.code, "not_found");
    assert_eq!(reply.message, "The requested resource does not exist.");
}

#[test]
fn test_simulated_internal_error() {
    let reply = internal_error_reply();
    assert_eq!(reply.status, 500);
    assert_eq!(reply.code, "internal_error");
    assert_eq!(reply.message, "The server encountered an unexpected error.");
    let text = format!("{:?}", reply);
    assert!(!text.contains("Postgres"));
    assert!(!text.contains("localhost:5432"));
    assert!(!text.contains("ConnectionRefused"));
    assert!(!text.contains("catalog-db"));
}

#[test]
fn database_trouble_is_not_disclosed() {
    let db = catalog_error_reply(&CatalogError::Database(
        tokio_postgres::Error::__private_api_timeout(),
    ));
    assert_eq!(db, internal_error_reply());
    let pool = catalog_error_reply(&CatalogError::Pool(deadpool_postgres::PoolError::Closed));
    assert_eq!(pool, internal_error_reply());
}

#[test]
fn missing_product_is_not_found() {
    let reply = catalog_error_reply(&CatalogError::ProductNotFound { id: "p-9".to_string() });
    assert_eq!(reply.status, 404);
    assert_eq!(reply.code, "not_found");
    assert_eq!(reply.message, "Product not found.");
}
