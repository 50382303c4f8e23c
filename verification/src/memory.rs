//! The in-memory catalog: products kept in a vector in the order in which
//! they were created, each named by a fresh random UUID.

use vstd::prelude::*;

use crate::ids::{is_hyphenated_uuid, new_random_uuid_text};

verus! {

/// The identifier of a product.
#[derive(Debug, Clone, PartialEq, Eq, Hash)]
pub struct ProductId(pub String);

/// A product of the catalog.
#[derive(Debug, Clone, PartialEq, Eq)]
pub struct Product {
    pub id: ProductId,
    pub title: String,
    pub handle: String,
    pub price_cents: u32,
    pub inventory_quantity: u32,
    pub published: bool,
}

/// What a client supplies to create a product.
#[derive(Debug, Clone, PartialEq, Eq)]
pub struct ProductCreate {
    pub title: String,
    pub handle: String,
    pub price_cents: u32,
    pub inventory_quantity: u32,
    pub published: bool,
}

/// The product that `input` becomes under the identifier `id`.
pub open spec fn product_from_input(input: ProductCreate, id: String) -> Product {
    Product {
        id: ProductId(id),
        title: input.title,
        handle: input.handle,
        price_cents: input.price_cents,
        inventory_quantity: input.inventory_quantity,
        published: input.published,
    }
}

/// A field-by-field copy of `p`.
fn copy_product(p: &Product) -> (q: Product)
    ensures
        q == *p,
{
    Product {
        id: ProductId(p.id.0.clone()),
        title: p.title.clone(),
        handle: p.handle.clone(),
        price_cents: p.price_cents,
        inventory_quantity: p.inventory_quantity,
        published: p.published,
    }
}

/// The products of the catalog, oldest first.
#[derive(Debug)]
pub struct Catalog {
    products: Vec<Product>,
}

impl View for Catalog {
    type V = Seq<Product>;

    closed spec fn view(&self) -> Seq<Product> {
        self.products@
    }
}

impl Catalog {
    /// An empty catalog.
    pub fn new() -> (c: Catalog)
        ensures
            c@ == Seq::<Product>::empty(),
    {
        Catalog { products: Vec::new() }
    }

    /// Adds a product made of `input` under a fresh random UUID, after all
    /// the products already there, and returns it.
    pub fn create_product(&mut self, input: ProductCreate) -> (product: Product)
        ensures
            is_hyphenated_uuid(product.id.0@, '4'),
            product == product_from_input(input, product.id.0),
            product.title == input.title,
            product.handle == input.handle,
            product.price_cents == input.price_cents,
            product.inventory_quantity == input.inventory_quantity,
            product.published == input.published,
            final(self)@ == old(self)@.push(product),
    {
        let id = new_random_uuid_text();
        let product = Product {
            id: ProductId(id),
            title: input.title,
            handle: input.handle,
            price_cents: input.price_cents,
            inventory_quantity: input.inventory_quantity,
            published: input.published,
        };
        self.products.push(copy_product(&product));
        product
    }

    /// All the products of the catalog, oldest first.
    pub fn list_products(&self) -> (products: Vec<Product>)
        ensures
            products@ == self@,
    {
        let mut products: Vec<Product> = Vec::new();
        let n = self.products.len();
        for i in 0..n
            invariant
                n == self.products@.len(),
                products@ == self.products@.take(i as int),
        {
            products.push(copy_product(&self.products[i]));
            assert(self.products@.take(i + 1) == self.products@.take(i as int).push(
                self.products@[i as int],
            ));
        }
        assert(self.products@.take(n as int) == self.products@);
        products
    }
}

impl Default for Catalog {
    fn default() -> (c: Catalog)
        ensures
            c@ == Seq::<Product>::empty(),
    {
        Catalog::new()
    }
}

/// A product made of an input carries every field of the input unchanged,
/// its publication flag included, whatever its price or inventory.
pub proof fn lemma_product_reflects_input(input: ProductCreate, id: String)
    ensures
        product_from_input(input, id).id.0 == id,
        product_from_input(input, id).title == input.title,
        product_from_input(input, id).handle == input.handle,
        product_from_input(input, id).price_cents == input.price_cents,
        product_from_input(input, id).inventory_quantity == input.inventory_quantity,
        product_from_input(input, id).published == input.published,
{
}

} // verus!
