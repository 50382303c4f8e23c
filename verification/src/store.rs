//! The catalog kept in the database: the product records, the rules applied
//! before a product is stored, and how stored rows become products again.
//!
//! The database work itself (acquiring a connection, running the statements)
//! is done by the caller; the functions here decide what is written and what
//! a reply means.

use vstd::prelude::*;

use crate::external::{is_unique_violation, reports_unique_violation};
use crate::text::{is_blank, is_blank_text};

verus! {

/// The identifier of a product.
#[derive(Debug, Clone, PartialEq, Eq, Hash)]
pub struct ProductId(pub String);

/// An instant: whole seconds since the Unix epoch and the nanoseconds past
/// them.
#[derive(Debug, Clone, Copy, PartialEq, Eq, Hash)]
pub struct Timestamp {
    pub seconds: i64,
    pub nanos: u32,
}

/// A product of the catalog.
#[derive(Debug, Clone, PartialEq, Eq)]
pub struct Product {
    pub id: ProductId,
    pub title: String,
    pub handle: String,
    pub price_cents: u32,
    pub inventory_quantity: u32,
    pub published: bool,
    pub description: Option<String>,
    pub published_at: Option<Timestamp>,
    pub created_at: Timestamp,
    pub updated_at: Timestamp,
}

/// What a client supplies to create a product.
#[derive(Debug, Clone, PartialEq, Eq)]
pub struct CreateProductParams {
    pub title: String,
    pub handle: String,
    pub price_cents: u32,
    pub inventory_quantity: u32,
    pub published: bool,
    pub description: Option<String>,
}

/// Why a catalog operation failed.
#[derive(Debug)]
pub enum CatalogError {
    /// The title is empty once surrounding whitespace is trimmed.
    EmptyTitle,
    /// The handle is empty once surrounding whitespace is trimmed.
    EmptyHandle,
    /// Another product already uses this handle.
    DuplicateHandle { handle: String },
    /// No product has this identifier.
    ProductNotFound { id: String },
    /// The database refused a statement.
    Database(tokio_postgres::Error),
    /// No database connection could be had.
    Pool(deadpool_postgres::PoolError),
}

impl From<tokio_postgres::Error> for CatalogError {
    fn from(err: tokio_postgres::Error) -> (e: CatalogError) {
        CatalogError::Database(err)
    }
}

impl vstd::std_specs::convert::FromSpecImpl<tokio_postgres::Error> for CatalogError {
    open spec fn obeys_from_spec() -> bool {
        true
    }

    open spec fn from_spec(err: tokio_postgres::Error) -> CatalogError {
        CatalogError::Database(err)
    }
}

impl From<deadpool_postgres::PoolError> for CatalogError {
    fn from(err: deadpool_postgres::PoolError) -> (e: CatalogError) {
        CatalogError::Pool(err)
    }
}

impl vstd::std_specs::convert::FromSpecImpl<deadpool_postgres::PoolError> for CatalogError {
    open spec fn obeys_from_spec() -> bool {
        true
    }

    open spec fn from_spec(err: deadpool_postgres::PoolError) -> CatalogError {
        CatalogError::Pool(err)
    }
}

/// A row of the products table, as written and as read back: the counts are
/// stored in signed 32-bit columns.
#[derive(Debug, Clone, PartialEq, Eq)]
pub struct ProductRow {
    pub id: String,
    pub title: String,
    pub handle: String,
    pub price_cents: i32,
    pub inventory_quantity: i32,
    pub published: bool,
    pub description: Option<String>,
    pub published_at: Option<Timestamp>,
    pub created_at: Timestamp,
    pub updated_at: Timestamp,
}

/// The columns that a change of publication writes.
#[derive(Debug, Clone, Copy, PartialEq, Eq)]
pub struct PublicationUpdate {
    pub published: bool,
    pub published_at: Option<Timestamp>,
    pub updated_at: Timestamp,
}

/// When a product that is (or is not) published at `now` counts as
/// published: at `now` if it is, never if it is not.
pub open spec fn publication_time(published: bool, now: Timestamp) -> Option<Timestamp> {
    if published {
        Some(now)
    } else {
        None
    }
}

/// The row that creating a product from `params` under `id` at `now` writes.
pub open spec fn row_for_new_product(
    params: CreateProductParams,
    id: String,
    now: Timestamp,
) -> ProductRow {
    ProductRow {
        id: id,
        title: params.title,
        handle: params.handle,
        price_cents: params.price_cents as i32,
        inventory_quantity: params.inventory_quantity as i32,
        published: params.published,
        description: params.description,
        published_at: publication_time(params.published, now),
        created_at: now,
        updated_at: now,
    }
}

/// The product that a stored row stands for.
pub open spec fn product_for_row(row: ProductRow) -> Product {
    Product {
        id: ProductId(row.id),
        title: row.title,
        handle: row.handle,
        price_cents: row.price_cents as u32,
        inventory_quantity: row.inventory_quantity as u32,
        published: row.published,
        description: row.description,
        published_at: row.published_at,
        created_at: row.created_at,
        updated_at: row.updated_at,
    }
}

/// The columns that publishing (or unpublishing) at `now` writes.
pub open spec fn update_for_publication(published: bool, now: Timestamp) -> PublicationUpdate {
    PublicationUpdate {
        published: published,
        published_at: publication_time(published, now),
        updated_at: now,
    }
}

/// Checks a creation request before anything is written: the title must not
/// be blank, and then the handle must not be blank.
pub fn validate_create_params(params: &CreateProductParams) -> (r: Result<(), CatalogError>)
    ensures
        is_blank_text(params.title@) ==> r matches Err(CatalogError::EmptyTitle),
        !is_blank_text(params.title@) && is_blank_text(params.handle@) ==> r matches Err(
            CatalogError::EmptyHandle,
        ),
        !is_blank_text(params.title@) && !is_blank_text(params.handle@) ==> r is Ok,
{
    if is_blank(params.title.as_str()) {
        return Err(CatalogError::EmptyTitle);
    }
    if is_blank(params.handle.as_str()) {
        return Err(CatalogError::EmptyHandle);
    }
    Ok(())
}

/// The row to insert for a new product made of `params`, named `id` and
/// created at `now`.
pub fn new_product_row(params: CreateProductParams, id: String, now: Timestamp) -> (row:
    ProductRow)
    ensures
        row == row_for_new_product(params, id, now),
{
    let published_at = if params.published {
        Some(now)
    } else {
        None
    };
    ProductRow {
        id: id,
        title: params.title,
        handle: params.handle,
        price_cents: params.price_cents as i32,
        inventory_quantity: params.inventory_quantity as i32,
        published: params.published,
        description: params.description,
        published_at: published_at,
        created_at: now,
        updated_at: now,
    }
}

/// The row to write for the creation request `params`. The identifier and
/// the time of creation are drawn from `draw` only once the request has
/// passed the checks of `validate_create_params`. A refused request yields
/// no row and hands `draw` back unused, together with the reason.
pub fn plan_product_creation<F: FnOnce() -> (String, Timestamp)>(
    params: CreateProductParams,
    draw: F,
) -> (r: Result<ProductRow, (CatalogError, F)>)
    requires
        call_requires(draw, ()),
    ensures
        is_blank_text(params.title@) ==> (r matches Err((CatalogError::EmptyTitle, unused))
            && unused == draw),
        !is_blank_text(params.title@) && is_blank_text(params.handle@) ==> (r matches Err(
            (CatalogError::EmptyHandle, unused),
        ) && unused == draw),
        !is_blank_text(params.title@) && !is_blank_text(params.handle@) ==> exists|
            drawn: (String, Timestamp),
        |
            #[trigger] call_ensures(draw, (), drawn) && r == Ok::<
                ProductRow,
                (CatalogError, F),
            >(row_for_new_product(params, drawn.0, drawn.1)),
{
    if let Err(err) = validate_create_params(&params) {
        return Err((err, draw));
    }
    let (id, now) = draw();
    Ok(new_product_row(params, id, now))
}

/// The product that a stored row stands for.
pub fn product_from_row(row: ProductRow) -> (product: Product)
    ensures
        product == product_for_row(row),
        product.id.0 == row.id,
        product.title == row.title,
        product.handle == row.handle,
        product.published == row.published,
        product.published_at == row.published_at,
        product.description == row.description,
        product.created_at == row.created_at,
        product.updated_at == row.updated_at,
        row.price_cents >= 0 ==> product.price_cents == row.price_cents,
        row.inventory_quantity >= 0 ==> product.inventory_quantity == row.inventory_quantity,
{
    Product {
        id: ProductId(row.id),
        title: row.title,
        handle: row.handle,
        price_cents: row.price_cents as u32,
        inventory_quantity: row.inventory_quantity as u32,
        published: row.published,
        description: row.description,
        published_at: row.published_at,
        created_at: row.created_at,
        updated_at: row.updated_at,
    }
}

/// The products that stored rows stand for, in the order of the rows.
pub fn products_from_rows(rows: Vec<ProductRow>) -> (products: Vec<Product>)
    ensures
        products@ == rows@.map_values(|row: ProductRow| product_for_row(row)),
{
    let ghost all = rows@;
    let mut products: Vec<Product> = Vec::new();
    for row in it: rows.into_iter()
        invariant
            it.seq() == all,
            products@ == all.take(it.index() as int).map_values(
                |row: ProductRow| product_for_row(row),
            ),
    {
        let ghost i = it.index();
        products.push(product_from_row(row));
        assert(all.take(i + 1) == all.take(i as int).push(all[i as int]));
    }
    assert(all.take(all.len() as int) == all);
    products
}

/// What a refused insert means: a unique violation is a duplicate handle,
/// anything else a database error.
pub fn classify_insert_failure(
    handle: String,
    unique_violation: bool,
    err: tokio_postgres::Error,
) -> (e: CatalogError)
    ensures
        unique_violation ==> e == (CatalogError::DuplicateHandle { handle }),
        !unique_violation ==> e == CatalogError::Database(err),
{
    if unique_violation {
        CatalogError::DuplicateHandle { handle }
    } else {
        CatalogError::Database(err)
    }
}

/// What the database's refusal `err` of the insert of a product with
/// `handle` means: a duplicate handle when it reports a unique violation, a
/// database error otherwise.
pub fn insert_failure(handle: String, err: tokio_postgres::Error) -> (e: CatalogError)
    ensures
        reports_unique_violation(err) ==> e == (CatalogError::DuplicateHandle { handle }),
        !reports_unique_violation(err) ==> e == CatalogError::Database(err),
{
    let unique_violation = is_unique_violation(&err);
    classify_insert_failure(handle, unique_violation, err)
}

/// The columns to write when the product is published (or unpublished) at
/// `now`.
pub fn publication_update(published: bool, now: Timestamp) -> (update: PublicationUpdate)
    ensures
        update == update_for_publication(published, now),
{
    let published_at = if published {
        Some(now)
    } else {
        None
    };
    PublicationUpdate { published, published_at, updated_at: now }
}

/// The outcome of a change of publication of the product `id`, given the
/// row that the update returned, if any.
pub fn updated_product(id: &str, row: Option<ProductRow>) -> (r: Result<Product, CatalogError>)
    ensures
        match row {
            Some(row) => r == Ok::<Product, CatalogError>(product_for_row(row)),
            None => r matches Err(CatalogError::ProductNotFound { id: missing }) && missing@ == id@,
        },
{
    match row {
        Some(row) => Ok(product_from_row(row)),
        None => Err(CatalogError::ProductNotFound { id: String::from_str(id) }),
    }
}

/// A count stored in a signed 32-bit column reads back as the same unsigned
/// count, for every `u32` (values above `i32::MAX` are stored negative).
pub proof fn lemma_count_survives_storage(count: u32)
    ensures
        (count as i32) as u32 == count,
{
    assert((count as i32) as u32 == count) by (bit_vector);
}

/// A product created from `params` under `id` at `now`, once its row is
/// stored and read back unchanged, has the title, handle, price, inventory,
/// publication flag and description of `params`, the identifier `id`, was
/// created and last updated at `now`, and counts as published from `now`
/// exactly when `params` asks for it to be published.
pub proof fn lemma_created_product_reflects_params(
    params: CreateProductParams,
    id: String,
    now: Timestamp,
)
    ensures
        product_for_row(row_for_new_product(params, id, now)) == (Product {
            id: ProductId(id),
            title: params.title,
            handle: params.handle,
            price_cents: params.price_cents,
            inventory_quantity: params.inventory_quantity,
            published: params.published,
            description: params.description,
            published_at: publication_time(params.published, now),
            created_at: now,
            updated_at: now,
        }),
{
    lemma_count_survives_storage(params.price_cents);
    lemma_count_survives_storage(params.inventory_quantity);
}

/// A listing of the table, once it holds the row written for a product
/// created from `params` under `id` at `now`, shows that product exactly as
/// creating it returned it.
pub proof fn lemma_listing_shows_created_product(
    rows: Seq<ProductRow>,
    params: CreateProductParams,
    id: String,
    now: Timestamp,
)
    requires
        rows.contains(row_for_new_product(params, id, now)),
    ensures
        rows.map_values(|row: ProductRow| product_for_row(row)).contains(
            product_for_row(row_for_new_product(params, id, now)),
        ),
{
    let row = row_for_new_product(params, id, now);
    let i = choose|i: int| 0 <= i < rows.len() && rows[i] == row;
    let listing = rows.map_values(|r: ProductRow| product_for_row(r));
    assert(listing[i] == product_for_row(row));
}

/// A stored row after a change of publication: the statement that applies
/// `update` sets the publication flag, the publication time and the time of
/// the last update, and leaves every other column as it was.
pub open spec fn row_with_publication(row: ProductRow, update: PublicationUpdate) -> ProductRow {
    ProductRow {
        published: update.published,
        published_at: update.published_at,
        updated_at: update.updated_at,
        ..row
    }
}

/// Repeating a change of publication at the same moment changes nothing more:
/// the row after two such changes is the row after one.
pub proof fn lemma_publication_change_idempotent(row: ProductRow, published: bool, now: Timestamp)
    ensures
        row_with_publication(
            row_with_publication(row, update_for_publication(published, now)),
            update_for_publication(published, now),
        ) == row_with_publication(row, update_for_publication(published, now)),
{
}

/// Unpublishing a product at `now` leaves it unpublished with no publication
/// time, last updated at `now`, and with its identifier, title, handle,
/// price, inventory, description and creation time as they were.
pub proof fn lemma_unpublish_keeps_product(row: ProductRow, now: Timestamp)
    ensures
        ({
            let before = product_for_row(row);
            let after = product_for_row(row_with_publication(row, update_for_publication(false, now)));
            &&& !after.published
            &&& after.published_at is None
            &&& after.updated_at == now
            &&& after.id == before.id
            &&& after.title == before.title
            &&& after.handle == before.handle
            &&& after.price_cents == before.price_cents
            &&& after.inventory_quantity == before.inventory_quantity
            &&& after.description == before.description
            &&& after.created_at == before.created_at
        }),
{
}

/// Whatever the change of publication, the columns it writes agree with each
/// other: the product has a publication time exactly when it is published,
/// and that time is the moment of the change, which is also its last update.
pub proof fn lemma_publication_update_consistent(published: bool, now: Timestamp)
    ensures
        update_for_publication(published, now).published == published,
        update_for_publication(published, now).published_at is Some <==> published,
        published ==> update_for_publication(published, now).published_at == Some(now),
        update_for_publication(published, now).updated_at == now,
{
}

/// Whether a row's publication columns agree: it is published exactly when
/// it has a publication time.
pub open spec fn has_consistent_publication(row: ProductRow) -> bool {
    row.published == (row.published_at is Some)
}

/// Whether every row of `table` has consistent publication columns.
pub open spec fn table_publication_consistent(table: Seq<ProductRow>) -> bool {
    forall|i: int| 0 <= i < table.len() ==> has_consistent_publication(#[trigger] table[i])
}

/// Whether some row of `table` has the handle `handle`.
pub open spec fn table_has_handle(table: Seq<ProductRow>, handle: Seq<char>) -> bool {
    exists|i: int| 0 <= i < table.len() && #[trigger] table[i].handle@ == handle
}

/// The products table after the insert of `row`, as its statements are run
/// against it: the handle column is unique, so a row whose handle is already
/// taken is refused (`None`) and the table is left as it was; any other row
/// is added.
pub open spec fn table_after_insert(table: Seq<ProductRow>, row: ProductRow) -> Option<Seq<ProductRow>> {
    if table_has_handle(table, row.handle@) {
        None
    } else {
        Some(table.push(row))
    }
}

/// The products table after `update` is applied to the row whose
/// identifier is `id`; the other rows are left as they were.
pub open spec fn table_after_publication(
    table: Seq<ProductRow>,
    id: Seq<char>,
    update: PublicationUpdate,
) -> Seq<ProductRow> {
    table.map_values(
        |r: ProductRow|
            if r.id@ == id {
                row_with_publication(r, update)
            } else {
                r
            },
    )
}

/// Once a product has been created, a second creation with the same handle
/// is refused and leaves the table as it was.
pub proof fn lemma_duplicate_handle_refused(
    table: Seq<ProductRow>,
    first: CreateProductParams,
    first_id: String,
    first_time: Timestamp,
    second: CreateProductParams,
    second_id: String,
    second_time: Timestamp,
)
    requires
        table_after_insert(table, row_for_new_product(first, first_id, first_time)) is Some,
        second.handle@ == first.handle@,
    ensures
        table_after_insert(
            table_after_insert(table, row_for_new_product(first, first_id, first_time))->0,
            row_for_new_product(second, second_id, second_time),
        ) is None,
{
    let after = table_after_insert(table, row_for_new_product(first, first_id, first_time))->0;
    assert(after[table.len() as int].handle@ == second.handle@);
}

/// After two creations that the table accepts, a listing of the table shows
/// both created products, exactly as creating them returned them.
pub proof fn lemma_listing_after_two_creations(
    table: Seq<ProductRow>,
    p1: CreateProductParams,
    id1: String,
    t1: Timestamp,
    p2: CreateProductParams,
    id2: String,
    t2: Timestamp,
)
    requires
        table_after_insert(table, row_for_new_product(p1, id1, t1)) is Some,
        table_after_insert(
            table_after_insert(table, row_for_new_product(p1, id1, t1))->0,
            row_for_new_product(p2, id2, t2),
        ) is Some,
    ensures
        ({
            let stored = table_after_insert(
                table_after_insert(table, row_for_new_product(p1, id1, t1))->0,
                row_for_new_product(p2, id2, t2),
            )->0;
            let listing = stored.map_values(|row: ProductRow| product_for_row(row));
            &&& listing.contains(product_for_row(row_for_new_product(p1, id1, t1)))
            &&& listing.contains(product_for_row(row_for_new_product(p2, id2, t2)))
        }),
{
    let once = table_after_insert(table, row_for_new_product(p1, id1, t1))->0;
    let stored = table_after_insert(once, row_for_new_product(p2, id2, t2))->0;
    assert(stored[table.len() as int] == row_for_new_product(p1, id1, t1));
    assert(stored[table.len() + 1int] == row_for_new_product(p2, id2, t2));
    lemma_listing_shows_created_product(stored, p1, id1, t1);
    lemma_listing_shows_created_product(stored, p2, id2, t2);
}

/// Repeating a change of publication of a product at the same moment leaves
/// the table as the first change left it.
pub proof fn lemma_table_publication_idempotent(
    table: Seq<ProductRow>,
    id: Seq<char>,
    published: bool,
    now: Timestamp,
)
    ensures
        table_after_publication(
            table_after_publication(table, id, update_for_publication(published, now)),
            id,
            update_for_publication(published, now),
        ) == table_after_publication(table, id, update_for_publication(published, now)),
{
    let u = update_for_publication(published, now);
    let once = table_after_publication(table, id, u);
    let twice = table_after_publication(once, id, u);
    assert(twice =~= once);
}

/// The catalog's writes keep every stored row's publication columns
/// consistent: a creation adds a consistent row, and a change of publication
/// leaves every row consistent.
pub proof fn lemma_writes_keep_publication_consistent(
    table: Seq<ProductRow>,
    params: CreateProductParams,
    new_id: String,
    id: Seq<char>,
    published: bool,
    now: Timestamp,
)
    requires
        table_publication_consistent(table),
    ensures
        table_after_insert(table, row_for_new_product(params, new_id, now)) matches Some(t)
            ==> table_publication_consistent(t),
        table_publication_consistent(
            table_after_publication(table, id, update_for_publication(published, now)),
        ),
        has_consistent_publication(row_for_new_product(params, new_id, now)),
{
    let row = row_for_new_product(params, new_id, now);
    if let Some(t) = table_after_insert(table, row) {
        assert forall|i: int| 0 <= i < t.len() implies has_consistent_publication(
            #[trigger] t[i],
        ) by {
            if i < table.len() {
                assert(t[i] == table[i]);
            }
        }
    }
    let after = table_after_publication(table, id, update_for_publication(published, now));
    assert forall|i: int| 0 <= i < after.len() implies has_consistent_publication(
        #[trigger] after[i],
    ) by {
        assert(has_consistent_publication(table[i]));
    }
}

/// A stored row stands for the product whose every field is the row's
/// column: the same identifier, title, handle, publication flag, publication
/// time, description and times; counts that are not negative are the same
/// counts, and negative ones are the counts above `i32::MAX` stored in them.
pub proof fn lemma_product_reflects_row(row: ProductRow)
    ensures
        product_for_row(row).id.0 == row.id,
        product_for_row(row).title == row.title,
        product_for_row(row).handle == row.handle,
        product_for_row(row).published == row.published,
        product_for_row(row).published_at == row.published_at,
        product_for_row(row).description == row.description,
        product_for_row(row).created_at == row.created_at,
        product_for_row(row).updated_at == row.updated_at,
        row.price_cents >= 0 ==> product_for_row(row).price_cents == row.price_cents,
        row.inventory_quantity >= 0 ==> product_for_row(row).inventory_quantity
            == row.inventory_quantity,
        row.price_cents < 0 ==> product_for_row(row).price_cents == row.price_cents + 0x1_0000_0000,
        row.inventory_quantity < 0 ==> product_for_row(row).inventory_quantity
            == row.inventory_quantity + 0x1_0000_0000,
{
    let p = row.price_cents;
    let q = row.inventory_quantity;
    assert(p >= 0 ==> p as u32 == p) by (bit_vector);
    assert(q >= 0 ==> q as u32 == q) by (bit_vector);
    assert(p < 0 ==> p as u32 == p + 0x1_0000_0000) by (bit_vector);
    assert(q < 0 ==> q as u32 == q + 0x1_0000_0000) by (bit_vector);
}

/// Publishing a product, whenever it happens, reports it published from
/// that moment; unpublishing reports it unpublished with no publication time.
/// Only the publication columns and the time of the last update change.
pub proof fn lemma_publication_change_reported(row: ProductRow, published: bool, now: Timestamp)
    ensures
        ({
            let after = product_for_row(
                row_with_publication(row, update_for_publication(published, now)),
            );
            let before = product_for_row(row);
            &&& after.published == published
            &&& published ==> after.published_at == Some(now)
            &&& !published ==> after.published_at is None
            &&& after.updated_at == now
            &&& after.id == before.id
            &&& after.title == before.title
            &&& after.handle == before.handle
            &&& after.price_cents == before.price_cents
            &&& after.inventory_quantity == before.inventory_quantity
            &&& after.description == before.description
            &&& after.created_at == before.created_at
        }),
{
    lemma_product_reflects_row(row);
    lemma_product_reflects_row(row_with_publication(row, update_for_publication(published, now)));
}

/// A product counts as published from the moment it is published, and has
/// no publication time while it is not.
pub proof fn lemma_publication_time(now: Timestamp)
    ensures
        publication_time(true, now) == Some(now),
        publication_time(false, now) is None,
{
}

/// The row written for a new product holds the request's fields, the given
/// identifier, `now` as its creation and update time, and `now` as its
/// publication time exactly when the request asks for it to be published.
pub proof fn lemma_new_row_reflects_params(params: CreateProductParams, id: String, now: Timestamp)
    ensures
        row_for_new_product(params, id, now).id == id,
        row_for_new_product(params, id, now).title == params.title,
        row_for_new_product(params, id, now).handle == params.handle,
        row_for_new_product(params, id, now).published == params.published,
        row_for_new_product(params, id, now).description == params.description,
        row_for_new_product(params, id, now).created_at == now,
        row_for_new_product(params, id, now).updated_at == now,
        params.published ==> row_for_new_product(params, id, now).published_at == Some(now),
        !params.published ==> row_for_new_product(params, id, now).published_at is None,
        (row_for_new_product(params, id, now).price_cents as u32) == params.price_cents,
        (row_for_new_product(params, id, now).inventory_quantity as u32) == params.inventory_quantity,
{
    lemma_count_survives_storage(params.price_cents);
    lemma_count_survives_storage(params.inventory_quantity);
}

} // verus!
