use catalog::store::{
    classify_insert_failure, insert_failure, new_product_row, plan_product_creation,
    product_from_row, products_from_rows, publication_update, updated_product,
    validate_create_params,
};
use catalog::ids::new_product_id;
use catalog::{CatalogError, CreateProductParams, Product, ProductRow, Timestamp};
use chrono::TimeZone;

fn timestamp_of(dt: chrono::DateTime<chrono::Utc>) -> Timestamp {
    Timestamp { seconds: dt.timestamp(), nanos: dt.timestamp_subsec_nanos() }
}

fn fixed_time() -> Timestamp {
    timestamp_of(chrono::Utc.with_ymd_and_hms(2026, 6, 17, 12, 0, 0).unwrap())
}

/// Runs a creation through the library's decisions, with a database that
/// stores the inserted row and returns it unchanged.
fn create(params: CreateProductParams, id: &str, now: Timestamp) -> Result<Product, CatalogError> {
    let row = plan_product_creation(params, || (id.to_string(), now)).map_err(|(err, _)| err)?;
    Ok(product_from_row(row))
}

fn params(title: &str, handle: &str, published: bool) -> CreateProductParams {
    CreateProductParams {
        title: title.to_string(),
        handle: handle.to_string(),
        price_cents: 1000,
        inventory_quantity: 5,
        published,
        description: None,
    }
}

#[test]
fn lib_test_create_and_list_products() {
    let now = fixed_time();
    let input1 = CreateProductParams {
        title: "Super Cool T-Shirt".to_string(),
        handle: "super-cool-t-shirt".to_string(),
        price_cents: 2999,
        inventory_quantity: 50,
        published: true,
        description: Some("A very cool t-shirt".to_string()),
    };
    let input2 = CreateProductParams {
        title: "Cozy Hoodie".to_string(),
        handle: "cozy-hoodie".to_string(),
        price_cents: 4999,
        inventory_quantity: 20,
        published: false,
        description: None,
    };
    let row1 = new_product_row(input1, new_product_id(), now);
    let row2 = new_product_row(input2, new_product_id(), now);
    let prod1 = product_from_row(row1.clone());
    let prod2 = product_from_row(row2.clone());

    assert_eq!(prod1.title, "Super Cool T-Shirt");
    assert_eq!(prod1.handle, "super-cool-t-shirt");
    assert_eq!(prod1.price_cents, 2999);
    assert_eq!(prod1.inventory_quantity, 50);
    assert_eq!(prod1.published, true);
    assert_eq!(prod1.description, Some("A very cool t-shirt".to_string()));
    assert!(prod1.published_at.is_some());
    assert_eq!(prod1.id.0.len(), 36);
    assert_eq!(prod2.id.0.len(), 36);

    assert_eq!(prod2.title, "Cozy Hoodie");
    assert_eq!(prod2.handle, "cozy-hoodie");
    assert_eq!(prod2.price_cents, 4999);
    assert_eq!(prod2.inventory_quantity, 20);
    assert_eq!(prod2.published, false);
    assert_eq!(prod2.description, None);
    assert!(prod2.published_at.is_none());

    let products = products_from_rows(vec![row1, row2]);
    assert!(products.contains(&prod1));
    assert!(products.contains(&prod2));
    assert_eq!(products, vec![prod1, prod2]);
}

#[test]
fn test_deterministic_creation() {
    let fixed_time = fixed_time();
    let input = CreateProductParams {
        title: "Fixed Product".to_string(),
        handle: "fixed-product".to_string(),
        price_cents: 1000,
        inventory_quantity: 5,
        published: true,
        description: Some("Deterministic description".to_string()),
    };

    let prod = create(input, "prod-id-1", fixed_time).unwrap();

    assert_eq!(prod.id.0, "prod-id-1");
    assert_eq!(prod.created_at, fixed_time);
    assert_eq!(prod.updated_at, fixed_time);
    assert_eq!(prod.description, Some("Deterministic description".to_string()));
    assert_eq!(prod.published_at, Some(fixed_time));
}

#[test]
fn blank_title_is_refused_before_the_handle_is_looked_at() {
    let now = fixed_time();
    assert!(matches!(create(params("", "h", true), "id", now), Err(CatalogError::EmptyTitle)));
    assert!(matches!(create(params(" \t\n", "", true), "id", now), Err(CatalogError::EmptyTitle)));
    assert!(matches!(
        create(params("\u{3000}\u{a0}", "h", true), "id", now),
        Err(CatalogError::EmptyTitle)
    ));
}

#[test]
fn blank_handle_is_refused() {
    let now = fixed_time();
    assert!(matches!(create(params("Hoodie", "  ", true), "id", now), Err(CatalogError::EmptyHandle)));
    assert!(matches!(create(params("Hoodie", "", true), "id", now), Err(CatalogError::EmptyHandle)));
}

#[test]
fn text_with_inner_characters_is_not_blank() {
    let now = fixed_time();
    let product = create(params("  Mug  ", " mug ", false), "id", now).unwrap();
    assert_eq!(product.title, "  Mug  ");
    assert_eq!(product.handle, " mug ");
    assert_eq!(product.published_at, None);
    assert!(validate_create_params(&params("\u{200b}", "h", true)).is_ok());
}

#[test]
fn new_row_stores_counts_in_signed_columns() {
    let mut p = params("Big", "big", true);
    p.price_cents = u32::MAX;
    p.inventory_quantity = 2_147_483_648;
    let row = new_product_row(p, "id".to_string(), fixed_time());
    assert_eq!(row.price_cents, -1);
    assert_eq!(row.inventory_quantity, i32::MIN);
    let product = product_from_row(row);
    assert_eq!(product.price_cents, u32::MAX);
    assert_eq!(product.inventory_quantity, 2_147_483_648);
}

#[test]
fn publication_update_sets_time_only_when_published() {
    let now = fixed_time();
    let publish = publication_update(true, now);
    assert!(publish.published);
    assert_eq!(publish.published_at, Some(now));
    assert_eq!(publish.updated_at, now);
    let unpublish = publication_update(false, now);
    assert!(!unpublish.published);
    assert_eq!(unpublish.published_at, None);
    assert_eq!(unpublish.updated_at, now);
}

#[test]
fn update_of_a_missing_product_is_not_found() {
    match updated_product("missing-id", None) {
        Err(CatalogError::ProductNotFound { id }) => assert_eq!(id, "missing-id"),
        other => panic!("unexpected outcome: {:?}", other),
    }
}

#[test]
fn update_returns_the_returned_row_as_product() {
    let now = fixed_time();
    let row = ProductRow {
        id: "p-1".to_string(),
        title: "Mug".to_string(),
        handle: "mug".to_string(),
        price_cents: 250,
        inventory_quantity: 3,
        published: true,
        description: None,
        published_at: Some(now),
        created_at: Timestamp { seconds: 0, nanos: 0 },
        updated_at: now,
    };
    let product = updated_product("p-1", Some(row)).unwrap();
    assert_eq!(product.id.0, "p-1");
    assert_eq!(product.price_cents, 250);
    assert_eq!(product.published_at, Some(now));
    assert_eq!(product.created_at, Timestamp { seconds: 0, nanos: 0 });
}

#[test]
fn unique_violation_is_a_duplicate_handle() {
    let err = tokio_postgres::Error::__private_api_timeout();
    match classify_insert_failure("dup".to_string(), true, err) {
        CatalogError::DuplicateHandle { handle } => assert_eq!(handle, "dup"),
        other => panic!("unexpected error: {:?}", other),
    }
    let err = tokio_postgres::Error::__private_api_timeout();
    assert!(matches!(
        classify_insert_failure("dup".to_string(), false, err),
        CatalogError::Database(_)
    ));
}

#[test]
fn other_insert_failures_are_database_errors() {
    let err = tokio_postgres::Error::__private_api_timeout();
    assert!(matches!(insert_failure("h".to_string(), err), CatalogError::Database(_)));
}

#[test]
fn driver_errors_convert_into_catalog_errors() {
    let err: CatalogError = tokio_postgres::Error::__private_api_timeout().into();
    assert!(matches!(err, CatalogError::Database(_)));
    let err: CatalogError = deadpool_postgres::PoolError::Closed.into();
    assert!(matches!(err, CatalogError::Pool(_)));
}

#[test]
fn refused_creation_draws_no_identifier() {
    let drawn = std::cell::Cell::new(0);
    let refused = plan_product_creation(params(" ", "h", true), || {
        drawn.set(drawn.get() + 1);
        ("id".to_string(), fixed_time())
    });
    match refused {
        Err((CatalogError::EmptyTitle, unused)) => {
            assert_eq!(drawn.get(), 0);
            let (id, _) = unused();
            assert_eq!(id, "id");
            assert_eq!(drawn.get(), 1);
        }
        Err((other, _)) => panic!("unexpected error: {:?}", other),
        Ok(row) => panic!("unexpected row: {:?}", row),
    }

    let drawn = std::cell::Cell::new(0);
    let row = plan_product_creation(params("Mug", "mug", true), || {
        drawn.set(drawn.get() + 1);
        ("id-7".to_string(), fixed_time())
    })
    .map_err(|(err, _)| err)
    .unwrap();
    assert_eq!(drawn.get(), 1);
    assert_eq!(row.id, "id-7");
    assert_eq!(row.published_at, Some(fixed_time()));
    assert!(validate_create_params(&params("Mug", "mug", true)).is_ok());
}

#[test]
fn repeated_publication_change_writes_the_same_columns() {
    let now = fixed_time();
    assert_eq!(publication_update(true, now), publication_update(true, now));
    assert_eq!(publication_update(false, now), publication_update(false, now));
}
