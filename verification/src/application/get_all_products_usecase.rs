//! Reading every product.

use vstd::prelude::*;
use crate::application::queries::GetProductQuery;
use crate::application::repositories::ProductRepository;
use crate::error::{is_unavailable, Error};

verus! {

/// Reads every product from the repository it was made with.
pub struct GetAllProductsUseCase<'a, R: ProductRepository> {
    pub product_repository: &'a R,
}

impl<'a, R: ProductRepository> GetAllProductsUseCase<'a, R> {
    /// The use case over `product_repository`.
    pub fn new(product_repository: &'a R) -> (usecase: Self)
        ensures
            usecase.product_repository == product_repository,
    {
        Self { product_repository }
    }

    /// Every stored product, in the order of the table; none at all where
    /// the table is empty.
    pub fn get_all(&self) -> (outcome: Result<Vec<GetProductQuery>, Error>)
        ensures
            self.product_repository.table().well_formed(),
            self.product_repository.available() ==> outcome is Ok && outcome->Ok_0.deep_view()
                == self.product_repository.table().products(),
            !self.product_repository.available() ==> is_unavailable(outcome),
    {
        let products = match self.product_repository.find_all() {
            Ok(products) => products,
            Err(error) => {
                return Err(error);
            },
        };
        let mut queries: Vec<GetProductQuery> = Vec::new();
        let mut at: usize = 0;
        while at < products.len()
            invariant
                at <= products.len(),
                queries.len() == at,
                forall|i: int| 0 <= i < at ==> (#[trigger] queries[i])@ == products[i]@,
            decreases products.len() - at,
        {
            queries.push(GetProductQuery::from(products[at].clone()));
            at += 1;
        }
        assert(queries.deep_view() =~= products.deep_view());
        Ok(queries)
    }
}

} // verus!
