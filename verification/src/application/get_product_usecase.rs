//! Reading one product.

use vstd::prelude::*;
use crate::application::queries::GetProductQuery;
use crate::application::repositories::ProductRepository;
use crate::error::{is_unavailable, Error};

verus! {

/// Reads one product by its id from the repository it was made with.
pub struct GetProductUseCase<'a, R: ProductRepository> {
    pub product_repository: &'a R,
}

impl<'a, R: ProductRepository> GetProductUseCase<'a, R> {
    /// The use case over `product_repository`.
    pub fn new(product_repository: &'a R) -> (usecase: Self)
        ensures
            usecase.product_repository == product_repository,
    {
        Self { product_repository }
    }

    /// The product with the id `id`, or `Error::NotFound` where none is
    /// stored.
    pub fn get_by_id(&self, id: u32) -> (outcome: Result<GetProductQuery, Error>)
        ensures
            self.product_repository.table().well_formed(),
            self.product_repository.available() && self.product_repository.table().holds(
                id as nat,
            ) ==> outcome is Ok && outcome->Ok_0@ == self.product_repository.table().row(
                id as nat,
            ).product(),
            self.product_repository.available() && !self.product_repository.table().holds(
                id as nat,
            ) ==> outcome == Err::<GetProductQuery, Error>(Error::NotFound),
            !self.product_repository.available() ==> is_unavailable(outcome),
    {
        match self.product_repository.find_by_id(id) {
            Ok(product) => Ok(GetProductQuery::from(product)),
            Err(error) => Err(error),
        }
    }
}

} // verus!
