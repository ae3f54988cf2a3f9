//! The repository over a relational product table.

use vstd::prelude::*;
use crate::application::repositories::ProductRepository;
use crate::domain::product::Product;
use crate::error::{is_unavailable, Error};
use crate::infrastructure::clock::now_rfc3339;
use crate::infrastructure::product_entity::ProductEntity;
use crate::infrastructure::product_store::ProductStore;
use crate::model::TableModel;

verus! {

/// The repository over a product table with an auto-incremented id, such as
/// an SQLite table. It turns rows into products and decides, when a product
/// is saved, between writing over a row and appending one; the statements
/// themselves are carried out by the store it is given.
pub struct SqliteProductRepository<S: ProductStore> {
    pub store: S,
}

impl<S: ProductStore> SqliteProductRepository<S> {
    /// A repository over `store`.
    pub fn new(store: S) -> (repository: Self)
        ensures
            repository.store == store,
    {
        Self { store }
    }

    /// The product that a row stores.
    pub fn entity_to_domain(entity: ProductEntity) -> (product: Product)
        ensures
            product == (Product {
                id: entity.id,
                name: entity.name,
                price: entity.price,
                description: entity.description,
                quantity: entity.quantity,
            }),
            product@ == entity@.product(),
    {
        Product::new(entity.id, entity.name, entity.price, entity.description, entity.quantity)
    }

    /// Saves `product` at the time `now`, and returns it as it is stored.
    ///
    /// Where the table has a row with the id of `product`, that row is
    /// overwritten in place: it keeps the time of its creation, and the time
    /// of its last write becomes `now`. Where it has none, `product` is
    /// appended under a new id, which the table assigns, with both times set
    /// to `now`. A table that is not available, or that has no id left for a
    /// new row, fails the operation and stays as it was.
    pub fn save_at(&mut self, product: Product, now: String) -> (outcome: Result<Product, Error>)
        ensures
            old(self).table().well_formed(),
            final(self).table().well_formed(),
            final(self).available() == old(self).available(),
            old(self).available() && (old(self).table().holds(product.id as nat) || old(
                self,
            ).table().has_room()) ==> outcome is Ok && outcome->Ok_0@ == old(
                self,
            ).table().saved_product(product@) && final(self).table() == old(self).table().saved(
                product@,
                now@,
            ),
            !(old(self).available() && (old(self).table().holds(product.id as nat) || old(
                self,
            ).table().has_room())) ==> is_unavailable(outcome) && final(self).table() == old(
                self,
            ).table(),
    {
        let existing = match self.store.select_by_id(product.id) {
            Ok(existing) => existing,
            Err(error) => {
                return Err(error);
            },
        };
        match existing {
            Some(_) => {
                match self.store.update_by_id(
                    product.id,
                    &product.name,
                    product.price,
                    &product.description,
                    product.quantity,
                    &now,
                ) {
                    Ok(_) => Ok(product),
                    Err(error) => Err(error),
                }
            },
            None => {
                match self.store.insert(
                    &product.name,
                    product.price,
                    &product.description,
                    product.quantity,
                    &now,
                    &now,
                ) {
                    Ok(id) => Ok(
                        Product::new(
                            id,
                            product.name,
                            product.price,
                            product.description,
                            product.quantity,
                        ),
                    ),
                    Err(error) => Err(error),
                }
            },
        }
    }
}

impl<S: ProductStore> ProductRepository for SqliteProductRepository<S> {
    open spec fn table(&self) -> TableModel {
        self.store.table()
    }

    open spec fn available(&self) -> bool {
        self.store.available()
    }

    fn find_all(&self) -> (outcome: Result<Vec<Product>, Error>) {
        let rows = match self.store.select_all() {
            Ok(rows) => rows,
            Err(error) => {
                return Err(error);
            },
        };
        let mut products: Vec<Product> = Vec::new();
        let mut at: usize = 0;
        while at < rows.len()
            invariant
                at <= rows.len(),
                products.len() == at,
                forall|i: int| 0 <= i < at ==> (#[trigger] products[i])@ == rows[i]@.product(),
            decreases rows.len() - at,
        {
            products.push(Self::entity_to_domain(rows[at].clone()));
            at += 1;
        }
        assert(products.deep_view() =~= self.table().products());
        Ok(products)
    }

    fn find_by_id(&self, id: u32) -> (outcome: Result<Product, Error>) {
        match self.store.select_by_id(id) {
            Ok(Some(entity)) => Ok(Self::entity_to_domain(entity)),
            Ok(None) => Err(Error::NotFound),
            Err(error) => Err(error),
        }
    }

    fn save(&mut self, product: Product) -> (outcome: Result<Product, Error>) {
        let now = now_rfc3339();
        self.save_at(product, now)
    }
}

} // verus!
