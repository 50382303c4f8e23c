//! Products described by an outside feed, and how they become creation
//! requests for the catalog.

use vstd::prelude::*;

use crate::store::CreateProductParams;

verus! {

/// A product as an outside feed describes it; its price is decimal text in
/// whole currency units.
#[derive(Debug, Clone, PartialEq, Eq)]
pub struct ExternalProduct {
    pub external_id: String,
    pub name: String,
    pub slug: String,
    pub price: String,
    pub stock: u32,
    pub is_visible: bool,
}

/// The creation request for `ext` when its price comes to `price_cents`.
pub open spec fn params_for_external(ext: ExternalProduct, price_cents: u32) -> CreateProductParams {
    CreateProductParams {
        title: ext.name,
        handle: ext.slug,
        price_cents: price_cents,
        inventory_quantity: ext.stock,
        published: ext.is_visible,
        description: None,
    }
}

/// Whether `r` is the outcome of mapping `ext` with the price reader
/// `price_to_cents`, for some answer that the reader may give on its price.
pub open spec fn is_mapping_outcome<F: Fn(&String) -> Option<u32>>(
    ext: ExternalProduct,
    price_to_cents: F,
    r: Result<CreateProductParams, String>,
) -> bool {
    exists|cents: Option<u32>|
        {
            &&& #[trigger] call_ensures(price_to_cents, (&ext.price,), cents)
            &&& match cents {
                Some(c) => r == Ok::<CreateProductParams, String>(params_for_external(ext, c)),
                None => r matches Err(msg) && msg@ == "Invalid price format"@,
            }
        }
}

/// Whether `price_to_cents` gives one answer per price text.
pub open spec fn is_deterministic_reader<F: Fn(&String) -> Option<u32>>(price_to_cents: F) -> bool {
    forall|text: &String, c1: Option<u32>, c2: Option<u32>|
        #[trigger] call_ensures(price_to_cents, (text,), c1) && #[trigger] call_ensures(
            price_to_cents,
            (text,),
            c2,
        ) ==> c1 == c2
}

/// The creation request for `ext`: its name becomes the title, its slug the
/// handle, its stock the inventory and its visibility the publication flag,
/// with no description. `price_to_cents` reads the price text into cents;
/// when it cannot, the request is refused with "Invalid price format".
pub fn map_external_product<F: Fn(&String) -> Option<u32>>(
    ext: &ExternalProduct,
    price_to_cents: F,
) -> (r: Result<CreateProductParams, String>)
    requires
        call_requires(price_to_cents, (&ext.price,)),
    ensures
        is_mapping_outcome(*ext, price_to_cents, r),
{
    let cents = price_to_cents(&ext.price);
    match cents {
        Some(c) => Ok(
            CreateProductParams {
                title: ext.name.clone(),
                handle: ext.slug.clone(),
                price_cents: c,
                inventory_quantity: ext.stock,
                published: ext.is_visible,
                description: None,
            },
        ),
        None => Err(String::from_str("Invalid price format")),
    }
}

/// The feed's own identifier plays no part in the request: two products of
/// the feed that agree in name, slug, stock and visibility, and whose prices
/// read as the same cents, give the same request.
pub proof fn lemma_mapping_ignores_external_id(a: ExternalProduct, b: ExternalProduct, price_cents: u32)
    requires
        a.name == b.name,
        a.slug == b.slug,
        a.stock == b.stock,
        a.is_visible == b.is_visible,
    ensures
        params_for_external(a, price_cents) == params_for_external(b, price_cents),
{
}

/// With a reader that gives one answer per price text, the feed's own
/// identifier plays no part in the outcome: two products of the feed that
/// agree in name, slug, price, stock and visibility are both accepted, with
/// equal requests, or both refused, with the same message.
pub proof fn lemma_outcome_ignores_external_id<F: Fn(&String) -> Option<u32>>(
    price_to_cents: F,
    a: ExternalProduct,
    b: ExternalProduct,
    ra: Result<CreateProductParams, String>,
    rb: Result<CreateProductParams, String>,
)
    requires
        is_deterministic_reader(price_to_cents),
        a.name == b.name,
        a.slug == b.slug,
        a.price == b.price,
        a.stock == b.stock,
        a.is_visible == b.is_visible,
        is_mapping_outcome(a, price_to_cents, ra),
        is_mapping_outcome(b, price_to_cents, rb),
    ensures
        ra is Ok <==> rb is Ok,
        ra is Ok ==> ra == rb,
        ra is Err ==> ra->Err_0@ == rb->Err_0@,
{
    let ca = choose|cents: Option<u32>|
        {
            &&& #[trigger] call_ensures(price_to_cents, (&a.price,), cents)
            &&& match cents {
                Some(c) => ra == Ok::<CreateProductParams, String>(params_for_external(a, c)),
                None => ra matches Err(msg) && msg@ == "Invalid price format"@,
            }
        };
    let cb = choose|cents: Option<u32>|
        {
            &&& #[trigger] call_ensures(price_to_cents, (&b.price,), cents)
            &&& match cents {
                Some(c) => rb == Ok::<CreateProductParams, String>(params_for_external(b, c)),
                None => rb matches Err(msg) && msg@ == "Invalid price format"@,
            }
        };
    assert(ca == cb);
    if let Some(c) = ca {
        lemma_mapping_ignores_external_id(a, b, c);
    }
}

/// The request made for a feed product carries its name as the title, its
/// slug as the handle, the given cents as the price, its stock as the
/// inventory and its visibility as the publication flag, with no
/// description, whatever the product's visibility or stock.
pub proof fn lemma_request_reflects_feed_product(ext: ExternalProduct, price_cents: u32)
    ensures
        params_for_external(ext, price_cents).title == ext.name,
        params_for_external(ext, price_cents).handle == ext.slug,
        params_for_external(ext, price_cents).price_cents == price_cents,
        params_for_external(ext, price_cents).inventory_quantity == ext.stock,
        params_for_external(ext, price_cents).published == ext.is_visible,
        params_for_external(ext, price_cents).description is None,
{
}

} // verus!
